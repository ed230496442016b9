use wizlight::codec::{command_tree, decode_response, encode_command, response_from_tree};
use wizlight::exchange::{color_command, config_command, turned_on_command};
use wizlight::{
    ColorDto, CommandDto, Error, Pilot, ResponseDto, ResponsePayloadDto, UserConfigDto,
};

const CONFIG_REPLY: &str = "{\"method\":\"getUserConfig\",\"env\":\"pro\",\"result\":{\"fadeIn\":500,\"fadeOut\":700,\"fadeNight\":false,\"dftDim\":100,\"pwmRange\":[0,100],\"whiteRange\":[2200,6500],\"extRange\":[6500,2200],\"po\":true}}";

fn sample_config() -> UserConfigDto {
    UserConfigDto {
        fade_in: 500,
        fade_out: 700,
        fade_night: false,
        dft_dim: 100,
        pwm_range: [0, 100],
        white_range: [2200, 6500],
        ext_range: [6500, 2200],
        po: true,
    }
}

#[test]
fn state_only_pilot_encodes_only_state() {
    let text = encode_command(&turned_on_command(true)).unwrap();
    assert_eq!(text, "{\"method\":\"setPilot\",\"params\":{\"state\":true}}");
}

#[test]
fn turning_off_encodes_false() {
    let text = encode_command(&turned_on_command(false)).unwrap();
    assert_eq!(text, "{\"method\":\"setPilot\",\"params\":{\"state\":false}}");
}

#[test]
fn state_only_pilot_tree_has_no_color_or_dimming() {
    let tree = command_tree(&turned_on_command(true));
    let top = tree.as_object().unwrap();
    assert_eq!(top.len(), 2);
    assert_eq!(top.get("method").unwrap().as_str(), Some("setPilot"));
    let params = top.get("params").unwrap().as_object().unwrap();
    assert_eq!(params.len(), 1);
    assert_eq!(params.get("state").unwrap().as_bool(), Some(true));
    assert!(params.get("r").is_none());
    assert!(params.get("g").is_none());
    assert!(params.get("b").is_none());
    assert!(params.get("dimming").is_none());
}

#[test]
fn color_flattens_beside_dimming() {
    let command = color_command(ColorDto { r: 255, g: 0, b: 17 }, 100);
    let tree = command_tree(&command);
    let params = tree.get("params").unwrap().as_object().unwrap();
    assert_eq!(params.len(), 4);
    assert_eq!(params.get("r").unwrap().as_u64(), Some(255));
    assert_eq!(params.get("g").unwrap().as_u64(), Some(0));
    assert_eq!(params.get("b").unwrap().as_u64(), Some(17));
    assert_eq!(params.get("dimming").unwrap().as_u64(), Some(100));
    assert!(params.get("color").is_none());
    assert!(params.get("state").is_none());
    let text = encode_command(&command).unwrap();
    assert_eq!(
        text,
        "{\"method\":\"setPilot\",\"params\":{\"b\":17,\"dimming\":100,\"g\":0,\"r\":255}}"
    );
}

#[test]
fn full_pilot_encodes_every_field() {
    let pilot = Pilot {
        color: Some(ColorDto { r: 1, g: 2, b: 3 }),
        dimming: Some(4_000_000_000),
        state: Some(false),
    };
    let text = encode_command(&CommandDto::SetPilot(pilot)).unwrap();
    assert_eq!(
        text,
        "{\"method\":\"setPilot\",\"params\":{\"b\":3,\"dimming\":4000000000,\"g\":2,\"r\":1,\"state\":false}}"
    );
}

#[test]
fn get_pilot_uses_its_own_tag() {
    let pilot = Pilot { color: None, dimming: None, state: None };
    let text = encode_command(&CommandDto::GetPilot(pilot)).unwrap();
    assert_eq!(text, "{\"method\":\"getPilot\",\"params\":{}}");
}

#[test]
fn get_user_config_has_empty_params() {
    let text = encode_command(&config_command()).unwrap();
    assert_eq!(text, "{\"method\":\"getUserConfig\",\"params\":{}}");
}

#[test]
fn decodes_set_pilot_confirmation() {
    let reply = decode_response(b"{\"method\":\"setPilot\",\"result\":{\"success\":true},\"env\":\"pro\"}");
    assert_eq!(
        reply,
        Ok(ResponseDto {
            response_payload: ResponsePayloadDto::SetPilot { success: true },
            env: String::from("pro"),
        })
    );
}

#[test]
fn decodes_set_pilot_rejection() {
    let reply = decode_response(b"{\"method\":\"setPilot\",\"result\":{\"success\":false},\"env\":\"pro\"}");
    assert_eq!(
        reply,
        Ok(ResponseDto {
            response_payload: ResponsePayloadDto::SetPilot { success: false },
            env: String::from("pro"),
        })
    );
}

#[test]
fn decodes_user_config_keeping_range_order() {
    let request = encode_command(&config_command()).unwrap();
    assert_eq!(request, "{\"method\":\"getUserConfig\",\"params\":{}}");
    let reply = decode_response(CONFIG_REPLY.as_bytes()).unwrap();
    assert_eq!(reply.env, "pro");
    match reply.response_payload {
        ResponsePayloadDto::GetUserConfig(config) => {
            assert_eq!(config, sample_config());
            assert_eq!(config.pwm_range, [0, 100]);
            assert_eq!(config.white_range, [2200, 6500]);
            assert_eq!(config.ext_range, [6500, 2200]);
        }
        other => panic!("not a configuration: {:?}", other),
    }
}

#[test]
fn decodes_from_a_tree() {
    let tree: serde_json::Value = serde_json::from_str(CONFIG_REPLY).unwrap();
    let reply = response_from_tree(&tree).unwrap();
    assert_eq!(reply.response_payload, ResponsePayloadDto::GetUserConfig(sample_config()));
    assert_eq!(reply.env, "pro");
}

#[test]
fn extra_members_are_ignored() {
    let reply = decode_response(
        b" { \"id\" : 7, \"env\" : \"pro\", \"result\" : { \"success\" : true, \"mac\" : \"a8bb\" }, \"method\" : \"setPilot\" } ",
    );
    assert_eq!(
        reply.unwrap().response_payload,
        ResponsePayloadDto::SetPilot { success: true }
    );
}

#[test]
fn truncated_json_is_a_parse_error() {
    assert_eq!(
        decode_response(b"{\"method\":\"setPilot\",\"result\":{\"succ"),
        Err(Error::ParseError)
    );
    assert_eq!(decode_response(b""), Err(Error::ParseError));
    assert_eq!(decode_response(b"{"), Err(Error::ParseError));
}

#[test]
fn invalid_utf8_is_a_parse_error() {
    let mut bytes = b"{\"method\":\"setPilot\",\"result\":{\"success\":true},\"env\":\"".to_vec();
    bytes.push(0xff);
    bytes.extend_from_slice(b"\"}");
    assert_eq!(decode_response(&bytes), Err(Error::ParseError));
    assert_eq!(decode_response(&[0xc3, 0x28]), Err(Error::ParseError));
}

#[test]
fn unknown_tag_is_a_parse_error() {
    assert_eq!(
        decode_response(b"{\"method\":\"getPilot\",\"result\":{\"success\":true},\"env\":\"pro\"}"),
        Err(Error::ParseError)
    );
    assert_eq!(
        decode_response(b"{\"method\":7,\"result\":{\"success\":true},\"env\":\"pro\"}"),
        Err(Error::ParseError)
    );
    assert_eq!(
        decode_response(b"{\"result\":{\"success\":true},\"env\":\"pro\"}"),
        Err(Error::ParseError)
    );
}

#[test]
fn tag_and_shape_must_agree() {
    assert_eq!(
        decode_response(b"{\"method\":\"getUserConfig\",\"result\":{\"success\":true},\"env\":\"pro\"}"),
        Err(Error::ParseError)
    );
    assert_eq!(
        decode_response(b"{\"method\":\"setPilot\",\"result\":{\"success\":1},\"env\":\"pro\"}"),
        Err(Error::ParseError)
    );
    assert_eq!(
        decode_response(b"{\"method\":\"setPilot\",\"result\":true,\"env\":\"pro\"}"),
        Err(Error::ParseError)
    );
    assert_eq!(
        decode_response(b"{\"method\":\"setPilot\",\"env\":\"pro\"}"),
        Err(Error::ParseError)
    );
}

#[test]
fn missing_env_is_a_parse_error() {
    assert_eq!(
        decode_response(b"{\"method\":\"setPilot\",\"result\":{\"success\":true}}"),
        Err(Error::ParseError)
    );
    assert_eq!(
        decode_response(b"{\"method\":\"setPilot\",\"result\":{\"success\":true},\"env\":3}"),
        Err(Error::ParseError)
    );
}

#[test]
fn non_object_documents_are_parse_errors() {
    assert_eq!(decode_response(b"[]"), Err(Error::ParseError));
    assert_eq!(decode_response(b"null"), Err(Error::ParseError));
    assert_eq!(decode_response(b"\"setPilot\""), Err(Error::ParseError));
    assert_eq!(decode_response(b"17"), Err(Error::ParseError));
}

fn config_reply_with(member: &str, replacement: &str) -> String {
    let changed = CONFIG_REPLY.replace(member, replacement);
    assert_ne!(changed, CONFIG_REPLY);
    changed
}

#[test]
fn config_needs_every_member() {
    for member in [
        "\"fadeIn\":500,",
        "\"fadeOut\":700,",
        "\"fadeNight\":false,",
        "\"dftDim\":100,",
        "\"pwmRange\":[0,100],",
        "\"whiteRange\":[2200,6500],",
        "\"extRange\":[6500,2200],",
        ",\"po\":true",
    ] {
        let text = config_reply_with(member, "");
        assert_eq!(decode_response(text.as_bytes()), Err(Error::ParseError));
    }
}

#[test]
fn config_numbers_must_fit_u32() {
    let largest = config_reply_with("\"fadeIn\":500", "\"fadeIn\":4294967295");
    match decode_response(largest.as_bytes()).unwrap().response_payload {
        ResponsePayloadDto::GetUserConfig(config) => assert_eq!(config.fade_in, 4294967295),
        other => panic!("not a configuration: {:?}", other),
    }
    for replacement in [
        "\"fadeIn\":4294967296",
        "\"fadeIn\":-1",
        "\"fadeIn\":500.0",
        "\"fadeIn\":\"500\"",
        "\"fadeIn\":null",
    ] {
        let text = config_reply_with("\"fadeIn\":500", replacement);
        assert_eq!(decode_response(text.as_bytes()), Err(Error::ParseError));
    }
}

#[test]
fn ranges_have_exactly_two_numbers() {
    for replacement in [
        "\"pwmRange\":[0]",
        "\"pwmRange\":[]",
        "\"pwmRange\":[0,100,200]",
        "\"pwmRange\":[0,-100]",
        "\"pwmRange\":[0,4294967296]",
        "\"pwmRange\":[true,100]",
        "\"pwmRange\":100",
    ] {
        let text = config_reply_with("\"pwmRange\":[0,100]", replacement);
        assert_eq!(decode_response(text.as_bytes()), Err(Error::ParseError));
    }
    let swapped = config_reply_with("\"pwmRange\":[0,100]", "\"pwmRange\":[100,0]");
    match decode_response(swapped.as_bytes()).unwrap().response_payload {
        ResponsePayloadDto::GetUserConfig(config) => assert_eq!(config.pwm_range, [100, 0]),
        other => panic!("not a configuration: {:?}", other),
    }
}

fn scaled(channel: f32) -> u8 {
    (channel * 255_f32) as u8
}

#[test]
fn channels_scaled_from_floats_travel_as_bytes() {
    let red = ColorDto { r: scaled(1.0), g: scaled(0.0), b: scaled(0.0) };
    assert_eq!(red, ColorDto { r: 255, g: 0, b: 0 });
    let grey = ColorDto { r: scaled(0.5), g: scaled(0.5), b: scaled(0.5) };
    assert_eq!(grey, ColorDto { r: 127, g: 127, b: 127 });
    assert_eq!(
        encode_command(&color_command(red, 100)).unwrap(),
        "{\"method\":\"setPilot\",\"params\":{\"b\":0,\"dimming\":100,\"g\":0,\"r\":255}}"
    );
    assert_eq!(
        encode_command(&color_command(grey, 50)).unwrap(),
        "{\"method\":\"setPilot\",\"params\":{\"b\":127,\"dimming\":50,\"g\":127,\"r\":127}}"
    );
}

#[test]
fn different_commands_have_different_texts() {
    let empty = Pilot { color: None, dimming: None, state: None };
    let commands = [
        CommandDto::SetPilot(empty),
        CommandDto::GetPilot(empty),
        CommandDto::GetUserConfig {},
        CommandDto::SetPilot(Pilot { state: Some(true), ..empty }),
        CommandDto::SetPilot(Pilot { state: Some(false), ..empty }),
        CommandDto::SetPilot(Pilot { dimming: Some(1), ..empty }),
        CommandDto::SetPilot(Pilot { color: Some(ColorDto { r: 1, g: 0, b: 0 }), ..empty }),
        CommandDto::SetPilot(Pilot { color: Some(ColorDto { r: 0, g: 1, b: 0 }), ..empty }),
        CommandDto::SetPilot(Pilot { color: Some(ColorDto { r: 0, g: 0, b: 1 }), ..empty }),
    ];
    for (i, a) in commands.iter().enumerate() {
        for (j, b) in commands.iter().enumerate() {
            let same = encode_command(a).unwrap() == encode_command(b).unwrap();
            assert_eq!(same, i == j);
        }
    }
}
