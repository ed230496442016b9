//! The wire format: which JSON document stands for a command, and which
//! reply a JSON document stands for.
//!
//! Both directions are stated over the [`Json`] model. Text is turned into
//! documents, and documents into text, by `serde_json`.

use vstd::prelude::*;
use crate::json::{
    bool_of, bool_value, empty_object, items_of, json_of, lookup, member, parse_text,
    parsed_text, render, rendered_text, set_member, text_of, text_of_bytes, text_value,
    unsigned_of, unsigned_value, Json,
};
use crate::wire::{
    CommandDto, Error, PayloadView, Pilot, ResponseDto, ResponsePayloadDto, ResponseView,
    UserConfigDto, UserConfigView,
};

verus! {

/// The members of the JSON object that stands for a pilot. The three colour
/// channels are siblings of `dimming` and `state`; a field that is `None`
/// contributes no member.
pub open spec fn pilot_fields(pilot: Pilot) -> Map<Seq<char>, Json> {
    let colored = match pilot.color {
        Some(color) => Map::<Seq<char>, Json>::empty().insert(
            "r"@,
            Json::Unsigned(color.r as u64),
        ).insert("g"@, Json::Unsigned(color.g as u64)).insert(
            "b"@,
            Json::Unsigned(color.b as u64),
        ),
        None => Map::<Seq<char>, Json>::empty(),
    };
    let dimmed = match pilot.dimming {
        Some(level) => colored.insert("dimming"@, Json::Unsigned(level as u64)),
        None => colored,
    };
    match pilot.state {
        Some(on) => dimmed.insert("state"@, Json::Bool(on)),
        None => dimmed,
    }
}

/// The method tag of a command.
pub open spec fn method_name(command: CommandDto) -> Seq<char> {
    match command {
        CommandDto::SetPilot(_) => "setPilot"@,
        CommandDto::GetPilot(_) => "getPilot"@,
        CommandDto::GetUserConfig {  } => "getUserConfig"@,
    }
}

/// The members of a command's `params` object.
pub open spec fn command_params(command: CommandDto) -> Map<Seq<char>, Json> {
    match command {
        CommandDto::SetPilot(pilot) => pilot_fields(pilot),
        CommandDto::GetPilot(pilot) => pilot_fields(pilot),
        CommandDto::GetUserConfig {  } => Map::empty(),
    }
}

/// The JSON document that stands for a command: an object with exactly the
/// members `method` and `params`.
pub open spec fn command_json(command: CommandDto) -> Json {
    Json::Object(
        Map::<Seq<char>, Json>::empty().insert("method"@, Json::Text(method_name(command))).insert(
            "params"@,
            Json::Object(command_params(command)),
        ),
    )
}

/// The text of the datagram that carries a command: the rendering of its
/// document, where there is one.
pub open spec fn command_text(command: CommandDto) -> Option<Seq<char>> {
    rendered_text(command_json(command))
}

/// The keys under which a pilot's fields travel are pairwise different.
pub proof fn lemma_pilot_keys_differ()
    ensures
        "r"@ != "g"@,
        "r"@ != "b"@,
        "g"@ != "b"@,
        "dimming"@ != "r"@,
        "dimming"@ != "g"@,
        "dimming"@ != "b"@,
        "state"@ != "r"@,
        "state"@ != "g"@,
        "state"@ != "b"@,
        "state"@ != "dimming"@,
        "method"@ != "params"@,
{
    reveal_strlit("r");
    reveal_strlit("g");
    reveal_strlit("b");
    reveal_strlit("dimming");
    reveal_strlit("state");
    reveal_strlit("method");
    reveal_strlit("params");
    assert("r"@[0] != "g"@[0]);
    assert("r"@[0] != "b"@[0]);
    assert("g"@[0] != "b"@[0]);
    assert("method"@[0] != "params"@[0]);
    assert("state"@.len() != "dimming"@.len());
}

/// A pilot's JSON object has a member for a field exactly when the field is
/// set, and the member holds the field's value: a field that is `None` is
/// left out, and the colour's channels stand beside `dimming` and `state`.
pub proof fn lemma_pilot_fields(pilot: Pilot)
    ensures
        forall|key: Seq<char>| #[trigger]
            pilot_fields(pilot).contains_key(key) <==> (pilot.color is Some && (key == "r"@ || key
                == "g"@ || key == "b"@)) || (pilot.dimming is Some && key == "dimming"@) || (
            pilot.state is Some && key == "state"@),
        pilot.color is Some ==> pilot_fields(pilot)["r"@] == Json::Unsigned(
            pilot.color.unwrap().r as u64,
        ) && pilot_fields(pilot)["g"@] == Json::Unsigned(pilot.color.unwrap().g as u64)
            && pilot_fields(pilot)["b"@] == Json::Unsigned(pilot.color.unwrap().b as u64),
        pilot.dimming is Some ==> pilot_fields(pilot)["dimming"@] == Json::Unsigned(
            pilot.dimming.unwrap() as u64,
        ),
        pilot.state is Some ==> pilot_fields(pilot)["state"@] == Json::Bool(pilot.state.unwrap()),
{
    lemma_pilot_keys_differ();
}

/// A pilot with only the power state set travels as an object whose one
/// member is `state`.
pub proof fn lemma_state_only_pilot(on: bool)
    ensures
        pilot_fields(Pilot { color: None, dimming: None, state: Some(on) }) == Map::<
            Seq<char>,
            Json,
        >::empty().insert("state"@, Json::Bool(on)),
        pilot_fields(Pilot { color: None, dimming: None, state: Some(on) }).dom() =~= set![
            "state"@
        ],
{
}

/// A command's document has the members `method` and `params` and no
/// other: the tag of the command's kind, and the object of its payload.
pub proof fn lemma_command_members(command: CommandDto)
    ensures
        forall|key: Seq<char>|
            lookup(command_json(command), key) is Some <==> key == "method"@ || key == "params"@,
        lookup(command_json(command), "method"@) == Some(Json::Text(method_name(command))),
        lookup(command_json(command), "params"@) == Some(Json::Object(command_params(command))),
        command is GetUserConfig ==> command_params(command) == Map::<Seq<char>, Json>::empty(),
{
    lemma_pilot_keys_differ();
}

/// The three method tags are pairwise different, so a document's tag tells
/// the kind of command.
pub proof fn lemma_method_names_differ(a: CommandDto, b: CommandDto)
    ensures
        method_name(a) == method_name(b) <==> (a is SetPilot && b is SetPilot) || (a is GetPilot
            && b is GetPilot) || (a is GetUserConfig && b is GetUserConfig),
{
    reveal_strlit("setPilot");
    reveal_strlit("getPilot");
    reveal_strlit("getUserConfig");
    assert("setPilot"@[0] != "getPilot"@[0]);
    assert("getUserConfig"@.len() != "setPilot"@.len());
    assert("getUserConfig"@.len() != "getPilot"@.len());
}

/// Nothing is lost on the way out: two commands with the same document are
/// the same command.
pub proof fn lemma_command_json_injective(a: CommandDto, b: CommandDto)
    requires
        command_json(a) == command_json(b),
    ensures
        a == b,
{
    lemma_pilot_keys_differ();
    lemma_method_names_differ(a, b);
    lemma_command_members(a);
    lemma_command_members(b);
    assert(command_params(a) == command_params(b));
    match (a, b) {
        (CommandDto::SetPilot(p), CommandDto::SetPilot(q)) => {
            lemma_pilots_with_same_fields(p, q);
        },
        (CommandDto::GetPilot(p), CommandDto::GetPilot(q)) => {
            lemma_pilots_with_same_fields(p, q);
        },
        _ => {},
    }
}

proof fn lemma_pilots_with_same_fields(p: Pilot, q: Pilot)
    requires
        pilot_fields(p) == pilot_fields(q),
    ensures
        p == q,
{
    lemma_pilot_keys_differ();
    lemma_pilot_fields(p);
    lemma_pilot_fields(q);
    let fields = pilot_fields(p);
    assert(fields.contains_key("r"@) <==> p.color is Some);
    assert(fields.contains_key("r"@) <==> q.color is Some);
    assert(fields.contains_key("dimming"@) <==> p.dimming is Some);
    assert(fields.contains_key("dimming"@) <==> q.dimming is Some);
    assert(fields.contains_key("state"@) <==> p.state is Some);
    assert(fields.contains_key("state"@) <==> q.state is Some);
}

fn pilot_tree(pilot: &Pilot) -> (tree: serde_json::Value)
    ensures
        json_of(tree) == Json::Object(pilot_fields(*pilot)),
{
    let mut tree = empty_object();
    match pilot.color {
        Some(color) => {
            set_member(&mut tree, "r", unsigned_value(color.r as u64));
            set_member(&mut tree, "g", unsigned_value(color.g as u64));
            set_member(&mut tree, "b", unsigned_value(color.b as u64));
        },
        None => {},
    }
    match pilot.dimming {
        Some(level) => {
            set_member(&mut tree, "dimming", unsigned_value(level as u64));
        },
        None => {},
    }
    match pilot.state {
        Some(on) => {
            set_member(&mut tree, "state", bool_value(on));
        },
        None => {},
    }
    tree
}

/// Builds the JSON document of a command.
pub fn command_tree(command: &CommandDto) -> (tree: serde_json::Value)
    ensures
        json_of(tree) == command_json(*command),
{
    let mut tree = empty_object();
    match command {
        CommandDto::SetPilot(pilot) => {
            set_member(&mut tree, "method", text_value("setPilot"));
            set_member(&mut tree, "params", pilot_tree(pilot));
        },
        CommandDto::GetPilot(pilot) => {
            set_member(&mut tree, "method", text_value("getPilot"));
            set_member(&mut tree, "params", pilot_tree(pilot));
        },
        CommandDto::GetUserConfig {  } => {
            set_member(&mut tree, "method", text_value("getUserConfig"));
            set_member(&mut tree, "params", empty_object());
        },
    }
    tree
}

/// Encodes a command as the text of one datagram.
///
/// The result is [`command_text`]: the compact rendering of the command's
/// document, returned exactly when `serde_json` prints one for it.
pub fn encode_command(command: &CommandDto) -> (text: Option<String>)
    ensures
        match text {
            Some(printed) => command_text(*command) == Some(printed@),
            None => command_text(*command) is None,
        },
{
    let tree = command_tree(command);
    render(&tree)
}

/// A JSON value read as a `u32`: an integer from 0 to `u32::MAX`.
pub open spec fn u32_of(value: Json) -> Option<u32> {
    match value {
        Json::Unsigned(n) => if n <= u32::MAX {
            Some(n as u32)
        } else {
            None
        },
        _ => None,
    }
}

/// The member `key` of `doc` read as a `u32`.
pub open spec fn field_u32(doc: Json, key: Seq<char>) -> Option<u32> {
    match lookup(doc, key) {
        Some(value) => u32_of(value),
        None => None,
    }
}

/// The member `key` of `doc` read as a boolean.
pub open spec fn field_bool(doc: Json, key: Seq<char>) -> Option<bool> {
    match lookup(doc, key) {
        Some(Json::Bool(b)) => Some(b),
        _ => None,
    }
}

/// The member `key` of `doc` read as a range: an array of exactly two `u32`
/// values, kept in their order.
pub open spec fn field_range(doc: Json, key: Seq<char>) -> Option<Seq<u32>> {
    match lookup(doc, key) {
        Some(Json::List(items)) => if items.len() == 2 && u32_of(items[0]) is Some && u32_of(
            items[1],
        ) is Some {
            Some(seq![u32_of(items[0]).unwrap(), u32_of(items[1]).unwrap()])
        } else {
            None
        },
        _ => None,
    }
}

/// A range as the array of its two bounds.
pub open spec fn range_json(range: Seq<u32>) -> Json {
    Json::List(seq![Json::Unsigned(range[0] as u64), Json::Unsigned(range[1] as u64)])
}

/// The settings that a `result` object holds, if it has all eight members
/// with the right shapes. Members under other keys are ignored.
pub open spec fn config_of(doc: Json) -> Option<UserConfigView> {
    if field_u32(doc, "fadeIn"@) is Some && field_u32(doc, "fadeOut"@) is Some && field_bool(
        doc,
        "fadeNight"@,
    ) is Some && field_u32(doc, "dftDim"@) is Some && field_range(doc, "pwmRange"@) is Some
        && field_range(doc, "whiteRange"@) is Some && field_range(doc, "extRange"@) is Some
        && field_bool(doc, "po"@) is Some {
        Some(
            UserConfigView {
                fade_in: field_u32(doc, "fadeIn"@).unwrap(),
                fade_out: field_u32(doc, "fadeOut"@).unwrap(),
                fade_night: field_bool(doc, "fadeNight"@).unwrap(),
                dft_dim: field_u32(doc, "dftDim"@).unwrap(),
                pwm_range: field_range(doc, "pwmRange"@).unwrap(),
                white_range: field_range(doc, "whiteRange"@).unwrap(),
                ext_range: field_range(doc, "extRange"@).unwrap(),
                po: field_bool(doc, "po"@).unwrap(),
            },
        )
    } else {
        None
    }
}

/// The payload that a reply document holds: chosen by its `method` tag and
/// read from its `result` member. Any other tag, and a `result` that does
/// not have the shape the tag calls for, gives `None`.
pub open spec fn payload_of(doc: Json) -> Option<PayloadView> {
    match (lookup(doc, "method"@), lookup(doc, "result"@)) {
        (Some(Json::Text(tag)), Some(result)) => if tag == "setPilot"@ {
            match field_bool(result, "success"@) {
                Some(success) => Some(PayloadView::SetPilot { success }),
                None => None,
            }
        } else if tag == "getUserConfig"@ {
            match config_of(result) {
                Some(config) => Some(PayloadView::GetUserConfig(config)),
                None => None,
            }
        } else {
            None
        },
        _ => None,
    }
}

/// The reply that a document stands for: its payload together with the text
/// under `env`.
pub open spec fn response_of(doc: Json) -> Option<ResponseView> {
    match (payload_of(doc), lookup(doc, "env"@)) {
        (Some(payload), Some(Json::Text(env))) => Some(ResponseView { payload, env }),
        _ => None,
    }
}

/// The document that the bytes of a datagram hold, if they are UTF-8 and
/// the text is JSON.
pub open spec fn document_of_bytes(bytes: Seq<u8>) -> Option<Json> {
    if vstd::utf8::valid_utf8(bytes) {
        parsed_text(vstd::utf8::decode_utf8(bytes))
    } else {
        None
    }
}

/// The reply that the bytes of a datagram stand for: they must be UTF-8, the
/// text must be JSON, and the document must be a reply.
pub open spec fn response_of_bytes(bytes: Seq<u8>) -> Option<ResponseView> {
    match document_of_bytes(bytes) {
        Some(doc) => response_of(doc),
        None => None,
    }
}

/// A range that was read holds the two numbers of the document's array in
/// the array's order: the first bound is the first element, the second bound
/// the second.
pub proof fn lemma_range_keeps_order(doc: Json, key: Seq<char>)
    requires
        field_range(doc, key) is Some,
    ensures
        field_range(doc, key).unwrap().len() == 2,
        lookup(doc, key) == Some(range_json(field_range(doc, key).unwrap())),
{
    let items = lookup(doc, key).unwrap()->List_0;
    assert(items =~= range_json(field_range(doc, key).unwrap())->List_0);
}

/// The tag decides the kind of payload: a document tagged `setPilot` never
/// reads as settings, and one tagged `getUserConfig` never as a
/// confirmation.
pub proof fn lemma_tag_decides_payload(doc: Json)
    requires
        payload_of(doc) is Some,
    ensures
        payload_of(doc).unwrap() is SetPilot <==> lookup(doc, "method"@) == Some(
            Json::Text("setPilot"@),
        ),
        payload_of(doc).unwrap() is GetUserConfig <==> lookup(doc, "method"@) == Some(
            Json::Text("getUserConfig"@),
        ),
{
    reveal_strlit("setPilot");
    reveal_strlit("getUserConfig");
    assert("getUserConfig"@.len() != "setPilot"@.len());
}

/// Settings as a `result` object with exactly the eight members of the wire
/// format.
pub open spec fn config_json(config: UserConfigView) -> Json {
    Json::Object(
        Map::<Seq<char>, Json>::empty().insert(
            "fadeIn"@,
            Json::Unsigned(config.fade_in as u64),
        ).insert("fadeOut"@, Json::Unsigned(config.fade_out as u64)).insert(
            "fadeNight"@,
            Json::Bool(config.fade_night),
        ).insert("dftDim"@, Json::Unsigned(config.dft_dim as u64)).insert(
            "pwmRange"@,
            range_json(config.pwm_range),
        ).insert("whiteRange"@, range_json(config.white_range)).insert(
            "extRange"@,
            range_json(config.ext_range),
        ).insert("po"@, Json::Bool(config.po)),
    )
}

/// A reply as a document with exactly the members `method`, `result` and
/// `env`.
pub open spec fn response_json(response: ResponseView) -> Json {
    let (tag, result) = match response.payload {
        PayloadView::SetPilot { success } => (
            "setPilot"@,
            Json::Object(Map::<Seq<char>, Json>::empty().insert("success"@, Json::Bool(success))),
        ),
        PayloadView::GetUserConfig(config) => ("getUserConfig"@, config_json(config)),
    };
    Json::Object(
        Map::<Seq<char>, Json>::empty().insert("method"@, Json::Text(tag)).insert(
            "result"@,
            result,
        ).insert("env"@, Json::Text(response.env)),
    )
}

/// Settings whose ranges have two bounds each.
pub open spec fn ranges_are_pairs(config: UserConfigView) -> bool {
    config.pwm_range.len() == 2 && config.white_range.len() == 2 && config.ext_range.len() == 2
}

/// The keys of a settings object are pairwise different, and so are the
/// keys of a reply.
proof fn lemma_reply_keys_differ()
    ensures
        "fadeIn"@ != "fadeOut"@,
        "fadeIn"@ != "fadeNight"@,
        "fadeIn"@ != "dftDim"@,
        "fadeIn"@ != "pwmRange"@,
        "fadeIn"@ != "whiteRange"@,
        "fadeIn"@ != "extRange"@,
        "fadeIn"@ != "po"@,
        "fadeOut"@ != "fadeNight"@,
        "fadeOut"@ != "dftDim"@,
        "fadeOut"@ != "pwmRange"@,
        "fadeOut"@ != "whiteRange"@,
        "fadeOut"@ != "extRange"@,
        "fadeOut"@ != "po"@,
        "fadeNight"@ != "dftDim"@,
        "fadeNight"@ != "pwmRange"@,
        "fadeNight"@ != "whiteRange"@,
        "fadeNight"@ != "extRange"@,
        "fadeNight"@ != "po"@,
        "dftDim"@ != "pwmRange"@,
        "dftDim"@ != "whiteRange"@,
        "dftDim"@ != "extRange"@,
        "dftDim"@ != "po"@,
        "pwmRange"@ != "whiteRange"@,
        "pwmRange"@ != "extRange"@,
        "pwmRange"@ != "po"@,
        "whiteRange"@ != "extRange"@,
        "whiteRange"@ != "po"@,
        "extRange"@ != "po"@,
        "method"@ != "result"@,
        "method"@ != "env"@,
        "result"@ != "env"@,
        "setPilot"@ != "getUserConfig"@,
{
    reveal_strlit("fadeIn");
    reveal_strlit("fadeOut");
    reveal_strlit("fadeNight");
    reveal_strlit("dftDim");
    reveal_strlit("pwmRange");
    reveal_strlit("whiteRange");
    reveal_strlit("extRange");
    reveal_strlit("po");
    reveal_strlit("method");
    reveal_strlit("result");
    reveal_strlit("env");
    reveal_strlit("setPilot");
    reveal_strlit("getUserConfig");
    assert("fadeIn"@.len() == 6 && "fadeOut"@.len() == 7 && "fadeNight"@.len() == 9);
    assert("dftDim"@.len() == 6 && "pwmRange"@.len() == 8 && "whiteRange"@.len() == 10);
    assert("extRange"@.len() == 8 && "po"@.len() == 2);
    assert("method"@.len() == 6 && "result"@.len() == 6 && "env"@.len() == 3);
    assert("setPilot"@.len() == 8 && "getUserConfig"@.len() == 13);
    assert("fadeIn"@[0] != "dftDim"@[0]);
    assert("pwmRange"@[0] != "extRange"@[0]);
    assert("method"@[0] != "result"@[0]);
}

/// Settings are read back from their object unchanged.
pub proof fn lemma_config_json_decodes(config: UserConfigView)
    requires
        ranges_are_pairs(config),
    ensures
        config_of(config_json(config)) == Some(config),
{
    lemma_reply_keys_differ();
    let doc = config_json(config);
    assert(field_range(doc, "pwmRange"@) is Some && field_range(doc, "pwmRange"@).unwrap()
        =~= config.pwm_range);
    assert(field_range(doc, "whiteRange"@) is Some && field_range(doc, "whiteRange"@).unwrap()
        =~= config.white_range);
    assert(field_range(doc, "extRange"@) is Some && field_range(doc, "extRange"@).unwrap()
        =~= config.ext_range);
}

/// Every reply is read back from its document unchanged: the decoder
/// accepts each well-formed reply and keeps every field of it.
pub proof fn lemma_response_json_decodes(response: ResponseView)
    requires
        response.payload is GetUserConfig ==> ranges_are_pairs(response.payload->GetUserConfig_0),
    ensures
        response_of(response_json(response)) == Some(response),
{
    lemma_reply_keys_differ();
    match response.payload {
        PayloadView::SetPilot { success } => {},
        PayloadView::GetUserConfig(config) => {
            lemma_config_json_decodes(config);
        },
    }
}

fn read_u32(value: &serde_json::Value) -> (r: Option<u32>)
    ensures
        r == u32_of(json_of(*value)),
{
    match unsigned_of(value) {
        Some(n) => if n <= 0xFFFF_FFFF {
            Some(n as u32)
        } else {
            None
        },
        None => None,
    }
}

fn read_field_u32(doc: &serde_json::Value, key: &str) -> (r: Option<u32>)
    ensures
        r == field_u32(json_of(*doc), key@),
{
    match member(doc, key) {
        Some(value) => read_u32(value),
        None => None,
    }
}

fn read_field_bool(doc: &serde_json::Value, key: &str) -> (r: Option<bool>)
    ensures
        r == field_bool(json_of(*doc), key@),
{
    match member(doc, key) {
        Some(value) => bool_of(value),
        None => None,
    }
}

fn read_field_range(doc: &serde_json::Value, key: &str) -> (r: Option<[u32; 2]>)
    ensures
        match r {
            Some(range) => field_range(json_of(*doc), key@) == Some(range@),
            None => field_range(json_of(*doc), key@) is None,
        },
{
    let value = match member(doc, key) {
        Some(value) => value,
        None => { return None; },
    };
    let items = match items_of(value) {
        Some(items) => items,
        None => { return None; },
    };
    if items.len() != 2 {
        return None;
    }
    match (read_u32(&items[0]), read_u32(&items[1])) {
        (Some(low), Some(high)) => {
            let range: [u32; 2] = [low, high];
            assert(range@ =~= seq![low, high]);
            Some(range)
        },
        _ => None,
    }
}

fn read_config(doc: &serde_json::Value) -> (r: Option<UserConfigDto>)
    ensures
        match r {
            Some(config) => config_of(json_of(*doc)) == Some(config@),
            None => config_of(json_of(*doc)) is None,
        },
{
    let fade_in = match read_field_u32(doc, "fadeIn") {
        Some(n) => n,
        None => { return None; },
    };
    let fade_out = match read_field_u32(doc, "fadeOut") {
        Some(n) => n,
        None => { return None; },
    };
    let fade_night = match read_field_bool(doc, "fadeNight") {
        Some(b) => b,
        None => { return None; },
    };
    let dft_dim = match read_field_u32(doc, "dftDim") {
        Some(n) => n,
        None => { return None; },
    };
    let pwm_range = match read_field_range(doc, "pwmRange") {
        Some(range) => range,
        None => { return None; },
    };
    let white_range = match read_field_range(doc, "whiteRange") {
        Some(range) => range,
        None => { return None; },
    };
    let ext_range = match read_field_range(doc, "extRange") {
        Some(range) => range,
        None => { return None; },
    };
    let po = match read_field_bool(doc, "po") {
        Some(b) => b,
        None => { return None; },
    };
    Some(
        UserConfigDto {
            fade_in,
            fade_out,
            fade_night,
            dft_dim,
            pwm_range,
            white_range,
            ext_range,
            po,
        },
    )
}

fn read_payload(doc: &serde_json::Value) -> (r: Option<ResponsePayloadDto>)
    ensures
        match r {
            Some(payload) => payload_of(json_of(*doc)) == Some(payload@),
            None => payload_of(json_of(*doc)) is None,
        },
{
    let tag_value = match member(doc, "method") {
        Some(value) => value,
        None => { return None; },
    };
    let tag: String = match text_of(tag_value) {
        Some(text) => text.to_owned(),
        None => { return None; },
    };
    let result = match member(doc, "result") {
        Some(value) => value,
        None => { return None; },
    };
    let set_pilot: String = "setPilot".to_owned();
    let get_user_config: String = "getUserConfig".to_owned();
    if tag == set_pilot {
        match read_field_bool(result, "success") {
            Some(success) => Some(ResponsePayloadDto::SetPilot { success }),
            None => None,
        }
    } else if tag == get_user_config {
        match read_config(result) {
            Some(config) => Some(ResponsePayloadDto::GetUserConfig(config)),
            None => None,
        }
    } else {
        None
    }
}

/// Reads a reply out of a JSON document.
///
/// Succeeds exactly on the documents that [`response_of`] accepts, with the
/// reply it gives; every other document is a parse error.
pub fn response_from_tree(doc: &serde_json::Value) -> (r: Result<ResponseDto, Error>)
    ensures
        match r {
            Ok(response) => response_of(json_of(*doc)) == Some(response@),
            Err(error) => error == Error::ParseError && response_of(json_of(*doc)) is None,
        },
{
    let response_payload = match read_payload(doc) {
        Some(payload) => payload,
        None => { return Err(Error::ParseError); },
    };
    let env_value = match member(doc, "env") {
        Some(value) => value,
        None => { return Err(Error::ParseError); },
    };
    match text_of(env_value) {
        Some(text) => Ok(ResponseDto { response_payload, env: text.to_owned() }),
        None => Err(Error::ParseError),
    }
}

/// Decodes the bytes of one received datagram.
///
/// Succeeds exactly on the bytes that [`response_of_bytes`] accepts, with
/// the reply it gives. Bytes that are not UTF-8, text that is not JSON, and
/// a document that is not a reply are each a parse error.
pub fn decode_response(bytes: &[u8]) -> (r: Result<ResponseDto, Error>)
    ensures
        match r {
            Ok(response) => response_of_bytes(bytes@) == Some(response@),
            Err(error) => error == Error::ParseError && response_of_bytes(bytes@) is None,
        },
        document_of_bytes(bytes@) is None ==> r is Err,
{
    let text = match text_of_bytes(bytes) {
        Some(text) => text,
        None => { return Err(Error::ParseError); },
    };
    match parse_text(text) {
        Some(doc) => response_from_tree(&doc),
        None => Err(Error::ParseError),
    }
}

} // verus!
