use petemc::dispatch::Command;
use petemc::surface::command_of;
use petemc::surface::command_surface;

#[test]
fn surface_lists_the_four_commands_in_order() {
    let surface = command_surface();
    let names: Vec<&str> = surface.iter().map(|c| c.name.as_str()).collect();
    assert_eq!(names, vec!["status", "set_address", "start_server", "set_start_cmd"]);
}

#[test]
fn surface_visibility_and_arguments() {
    let surface = command_surface();

    assert!(!surface[0].admin_only);
    let status_opt = surface[0].option.as_ref().unwrap();
    assert_eq!(status_opt.name, "address");
    assert!(!status_opt.required);

    assert!(surface[1].admin_only);
    let set_addr_opt = surface[1].option.as_ref().unwrap();
    assert_eq!(set_addr_opt.name, "address");
    assert!(set_addr_opt.required);

    assert!(!surface[2].admin_only);
    assert!(surface[2].option.is_none());

    assert!(surface[3].admin_only);
    let set_cmd_opt = surface[3].option.as_ref().unwrap();
    assert_eq!(set_cmd_opt.name, "command");
    assert!(set_cmd_opt.required);
}

#[test]
fn command_of_maps_each_name() {
    assert_eq!(
        command_of("status", None),
        Command::Status { address: None }
    );
    assert_eq!(
        command_of("status", Some("h:80".to_string())),
        Command::Status { address: Some("h:80".to_string()) }
    );
    assert_eq!(
        command_of("set_address", Some("mc.example.com".to_string())),
        Command::SetAddress { address: "mc.example.com".to_string() }
    );
    assert_eq!(command_of("start_server", None), Command::StartServer);
    assert_eq!(
        command_of("set_start_cmd", Some("start-mc".to_string())),
        Command::SetStartCmd { command: "start-mc".to_string() }
    );
    assert_eq!(command_of("dance", None), Command::Unknown);
}

#[test]
fn command_of_without_a_required_argument_is_unknown() {
    assert_eq!(command_of("set_address", None), Command::Unknown);
    assert_eq!(command_of("set_start_cmd", None), Command::Unknown);
}
