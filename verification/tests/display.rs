use winfw::{Actions, Directions, Error, FwRule, Protocols};

#[test]
fn protocols_are_shown_by_their_word() {
    assert_eq!(Protocols::Tcp.to_string(), "TCP");
    assert_eq!(Protocols::Udp.to_string(), "UDP");
    assert_eq!(Protocols::Any.to_string(), "Any");
}

#[test]
fn directions_are_shown_by_their_word() {
    assert_eq!(Directions::In.to_string(), "IN");
    assert_eq!(Directions::Out.to_string(), "OUT");
    assert_eq!(Directions::Any.to_string(), "Any");
}

#[test]
fn actions_are_shown_by_their_word() {
    assert_eq!(Actions::Block.to_string(), "BLOCK");
    assert_eq!(Actions::Allow.to_string(), "ALLOW");
}

#[test]
fn status_code_is_shown_in_hexadecimal() {
    assert_eq!(Error::Native(32).to_string(), "0x000020");
    assert_eq!(Error::Native(1).to_string(), "0x000001");
    assert_eq!(Error::Native(0).to_string(), "0x000000");
    assert_eq!(Error::Native(15).to_string(), "0x00000f");
    assert_eq!(Error::Native(16).to_string(), "0x000010");
    assert_eq!(Error::Native(0xabcdef).to_string(), "0xabcdef");
    assert_eq!(Error::Native(0x1000000).to_string(), "0x1000000");
    assert_eq!(Error::Native(0x1234567).to_string(), "0x1234567");
    assert_eq!(Error::Native(0x8007_0005).to_string(), "0x80070005");
    assert_eq!(Error::Native(u32::MAX).to_string(), "0xffffffff");
}

#[test]
fn status_code_is_shown_as_the_formatter_shows_it() {
    let mut code: u32 = 1;
    for _ in 0..40 {
        assert_eq!(Error::Native(code).to_string(), format!("{:#08x}", code));
        assert_eq!(Error::Native(code - 1).to_string(), format!("{:#08x}", code - 1));
        code = code.wrapping_mul(2_654_435_761).wrapping_add(12_345) | 1;
    }
}

#[test]
fn other_errors_are_shown_in_words() {
    assert_eq!(Error::NotFound.to_string(), "rule not found");
    assert_eq!(Error::TooLong.to_string(), "text too long for a native text slot");
    assert_eq!(Error::Decode.to_string(), "native text slot holds no text");
}

#[test]
fn rule_is_shown_line_by_line() {
    let rule = FwRule {
        name: "PER_INTERFACETYPE_RULE".to_string(),
        description: "Allow incoming network traffic".to_string(),
        app_name: "app.exe".to_string(),
        service_name: "svc".to_string(),
        protocol: Protocols::Tcp,
        icmp_type: "8:*".to_string(),
        local_ports: "2400-2450".to_string(),
        remote_ports: "80".to_string(),
        local_adresses: "10.0.0.1".to_string(),
        remote_addresses: "*".to_string(),
        profile1: "Domain".to_string(),
        profile2: "Private".to_string(),
        profile3: "Public".to_string(),
        direction: Directions::In,
        action: Actions::Allow,
        interface_types: "LAN".to_string(),
        interfaces: "Ethernet".to_string(),
        enabled: true,
        grouping: "Sample Rule Group".to_string(),
        edge_traversal: false,
    };
    let expected = "name: PER_INTERFACETYPE_RULE\n\
        description: Allow incoming network traffic\n\
        application name: app.exe\n\
        service name: svc\n\
        protocol: TCP\n\
        icmp type: 8:*\n\
        local ports: 2400-2450\n\
        remote ports: 80\n\
        local address: 10.0.0.1\n\
        remote address: *\n\
        profiles: Domain Private Public\n\
        direction: IN\n\
        action: ALLOW\n\
        interfaces types: Ethernet\n\
        interfaces: LAN\n\
        enabled: true\n\
        grouping: Sample Rule Group\n\
        edge traversal: false\n\
        ---";
    assert_eq!(rule.to_string(), expected);
}

#[test]
fn blank_rule_is_shown_with_empty_fields() {
    let expected = "name: \ndescription: \napplication name: \nservice name: \nprotocol: Any\n\
        icmp type: \nlocal ports: \nremote ports: \nlocal address: \nremote address: \n\
        profiles:   \ndirection: Any\naction: BLOCK\ninterfaces types: \ninterfaces: \n\
        enabled: false\ngrouping: \nedge traversal: false\n---";
    assert_eq!(FwRule::default().to_string(), expected);
}
