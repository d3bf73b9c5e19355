use z_stack::generate::{
    field_name, last_segment_of, plan_command, plan_subsystem, subsystem_name, CommandType,
    Parameter, ParameterType, SubsystemCommand,
};

#[test]
fn parameter_type_texts() {
    assert_eq!(ParameterType::Buffer.ty(), "Buffer");
    assert_eq!(ParameterType::Buffer42.ty(), "BufferN<42>");
    assert_eq!(ParameterType::IeeeAddr.ty(), "IeeeAddr");
    assert_eq!(ParameterType::ListNeighborLqi.ty(), "Vec<NeighborLqi>");
    assert_eq!(ParameterType::ListUint16.ty(), "Vec<u16>");
    assert_eq!(ParameterType::Int8.ty(), "i8");
}

#[test]
fn last_segments() {
    assert_eq!(last_segment_of("ZStack.Subsystem.SYS"), "SYS");
    assert_eq!(last_segment_of("AF"), "AF");
    assert_eq!(last_segment_of("a."), "");
    assert_eq!(last_segment_of(""), "");
}

#[test]
fn names() {
    assert_eq!(field_name("dstAddr"), "dst_addr");
    assert_eq!(field_name("type"), "r#type");
    assert_eq!(field_name("Type"), "r#type");
    assert_eq!(subsystem_name("Subsystem.APP_CONFIG"), "AppConfig");
}

fn param(name: &str, parameter_type: ParameterType) -> Parameter {
    Parameter { name: name.to_string(), parameter_type }
}

#[test]
fn plans() {
    let ping = SubsystemCommand {
        id: 1,
        name: "ping".to_string(),
        type_: CommandType::SyncRequest,
        request: vec![],
        response: Some(vec![param("capabilities", ParameterType::Uint16)]),
    };
    let reset = SubsystemCommand {
        id: 0,
        name: "resetReq".to_string(),
        type_: CommandType::AsyncRequest,
        request: vec![param("type", ParameterType::Uint8)],
        response: None,
    };
    let plan = plan_command(&ping);
    assert_eq!(plan.variant, "Ping");
    assert_eq!(plan.request.name, "Ping");
    assert!(plan.request.fields.is_empty());
    let response = plan.response.unwrap();
    assert_eq!(response.name, "PingResponse");
    assert_eq!(response.fields.len(), 1);
    assert_eq!(response.fields[0].name, "capabilities");
    assert_eq!(response.fields[0].ty, "u16");

    let subsystem = plan_subsystem("Subsystem.SYS", &vec![reset, ping]);
    assert_eq!(subsystem.variant, "Sys");
    assert_eq!(subsystem.enum_name, "SysSubsystem");
    assert_eq!(subsystem.module, "sys");
    assert_eq!(subsystem.commands.len(), 2);
    assert_eq!(subsystem.commands[0].variant, "ResetReq");
    assert_eq!(subsystem.commands[0].request.fields[0].name, "r#type");
    assert_eq!(subsystem.commands[0].request.fields[0].ty, "u8");
    assert!(subsystem.commands[0].response.is_none());
    assert_eq!(subsystem.commands[1].variant, "Ping");
}

#[test]
fn parameter_types_have_distinct_texts() {
    let all = [
        ParameterType::Buffer,
        ParameterType::Buffer8,
        ParameterType::Buffer16,
        ParameterType::Buffer18,
        ParameterType::Buffer32,
        ParameterType::Buffer42,
        ParameterType::Buffer100,
        ParameterType::IeeeAddr,
        ParameterType::ListAssocDev,
        ParameterType::ListBindTable,
        ParameterType::ListNeighborLqi,
        ParameterType::ListNetwork,
        ParameterType::ListRoutingTable,
        ParameterType::ListUint8,
        ParameterType::ListUint16,
        ParameterType::Uint8,
        ParameterType::Uint16,
        ParameterType::Uint32,
        ParameterType::Int8,
    ];
    for (i, a) in all.iter().enumerate() {
        for (j, b) in all.iter().enumerate() {
            assert_eq!(i == j, a.ty() == b.ty());
        }
    }
}
