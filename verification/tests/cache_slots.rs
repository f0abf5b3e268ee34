use spin_worker::cache::{
    acknowledge, make_finalized_key, make_status_key, make_tentative_key, parse_index, promote, reject,
    stash, REJECTION,
};
use spin_worker::command::Command;
use spin_worker::error::WorkError;

fn set(key: &str, value: &[u8]) -> Command {
    Command::CacheSet { key: key.to_string(), value: value.to_vec() }
}

fn del(key: &str) -> Command {
    Command::CacheDel { key: key.to_string() }
}

fn triple(a: &str, b: &str, c: &str) -> (String, String, String) {
    (a.to_string(), b.to_string(), c.to_string())
}

#[test]
fn slot_keys() {
    assert_eq!(make_tentative_key("R"), "tmp:cache:R");
    assert_eq!(make_status_key("R"), "cache:status:R");
    assert_eq!(make_finalized_key("R"), "cache:R");
    assert_eq!(make_tentative_key(""), "tmp:cache:");
    assert_eq!(make_status_key("req-42"), "cache:status:req-42");
    assert_eq!(make_finalized_key("é"), "cache:é");
}

#[test]
fn slot_keys_of_one_request_differ() {
    for reqid in ["", "R", "status:", "cache:", "tmp:cache:x"] {
        let keys = [
            make_tentative_key(reqid),
            make_status_key(reqid),
            make_finalized_key(reqid),
        ];
        assert_ne!(keys[0], keys[1]);
        assert_ne!(keys[0], keys[2]);
        assert_ne!(keys[1], keys[2]);
    }
}

#[test]
fn rejection_text_is_fixed() {
    assert_eq!(REJECTION, "check of pair list wrong!");
}

#[test]
fn index_data_with_three_fields() {
    assert_eq!(parse_index(b"R:42:abcd"), Ok(triple("R", "42", "abcd")));
    assert_eq!(parse_index(b"req-1:7:00ff"), Ok(triple("req-1", "7", "00ff")));
}

#[test]
fn index_data_ignores_further_fields() {
    assert_eq!(parse_index(b"R:42:ab:cd"), Ok(triple("R", "42", "ab")));
    assert_eq!(parse_index(b"R:42:ab:"), Ok(triple("R", "42", "ab")));
}

#[test]
fn index_data_fields_may_be_empty() {
    assert_eq!(parse_index(b"::"), Ok(triple("", "", "")));
    assert_eq!(parse_index(b"R:42:"), Ok(triple("R", "42", "")));
    assert_eq!(parse_index(b":42:abcd"), Ok(triple("", "42", "abcd")));
    assert_eq!(parse_index(b"R::abcd"), Ok(triple("R", "", "abcd")));
}

#[test]
fn index_data_with_fewer_fields_is_malformed() {
    for data in [&b""[..], b"R", b"R:", b"R:42", b"no colons at all"] {
        assert_eq!(parse_index(data), Err(WorkError::DecodeError));
    }
}

#[test]
fn index_data_that_is_not_utf8_is_malformed() {
    assert_eq!(parse_index(&[0xff, b':', b'1', b':', b'2']), Err(WorkError::DecodeError));
    assert_eq!(parse_index(&[b'R', b':', b'1', b':', 0xc3]), Err(WorkError::DecodeError));
    assert_eq!(parse_index(&[b'R', b':', b'1', b':', b'2', b':', 0x80]), Err(WorkError::DecodeError));
}

#[test]
fn index_data_in_other_scripts() {
    assert_eq!(
        parse_index("リク:é42:日本語".as_bytes()),
        Ok(triple("リク", "é42", "日本語"))
    );
}

#[test]
fn stash_writes_the_body_into_the_tentative_slot() {
    assert_eq!(stash("R", "{\"rows\":[]}"), set("tmp:cache:R", b"{\"rows\":[]}"));
    assert_eq!(stash("R", ""), set("tmp:cache:R", b""));
    assert_eq!(stash("R", "é"), set("tmp:cache:R", "é".as_bytes()));
}

#[test]
fn acknowledge_writes_status_then_finalized() {
    assert_eq!(
        acknowledge("R", "42", "abcd"),
        vec![set("cache:status:R", b"true"), set("cache:R", b"42:abcd")]
    );
}

#[test]
fn promote_with_a_tentative_value() {
    assert_eq!(
        promote("R", Some(b"body".to_vec())),
        vec![
            set("cache:status:R", b"true"),
            set("cache:R", b"body"),
            del("tmp:cache:R"),
        ]
    );
}

#[test]
fn promote_with_an_empty_tentative_value() {
    assert_eq!(
        promote("R", Some(vec![])),
        vec![set("cache:status:R", b"true"), set("cache:R", b""), del("tmp:cache:R")]
    );
}

#[test]
fn promote_without_a_tentative_value() {
    assert_eq!(promote("R", None), vec![set("cache:status:R", b"true"), del("tmp:cache:R")]);
}

#[test]
fn reject_writes_the_fixed_text() {
    assert_eq!(
        reject("R"),
        vec![
            set("cache:status:R", b"false"),
            set("cache:R", b"check of pair list wrong!"),
            del("tmp:cache:R"),
        ]
    );
}

#[test]
fn index_data_rejects_ill_formed_encodings() {
    // An overlong encoding, a surrogate and a value past the last scalar.
    for bad in [&[0xc0u8, 0x80][..], &[0xed, 0xa0, 0x80], &[0xf4, 0x90, 0x80, 0x80], &[0xf5, 0x80, 0x80, 0x80]] {
        let mut data = b"R:1:".to_vec();
        data.extend_from_slice(bad);
        assert_eq!(parse_index(&data), Err(WorkError::DecodeError));
    }
    // The first and the last scalar of each width are well-formed.
    for good in ["\u{0}", "\u{7f}", "\u{80}", "\u{7ff}", "\u{800}", "\u{d7ff}", "\u{e000}", "\u{ffff}", "\u{10000}", "\u{10ffff}"] {
        let data = format!("R:1:{}", good);
        assert_eq!(parse_index(data.as_bytes()), Ok(triple("R", "1", good)));
    }
}

#[test]
fn slots_of_different_requests_lie_apart() {
    let ids = ["", "R", "S", "r", "RR", "req-1", "req-2", "cache:", "tmp:cache:R"];
    for a in ids {
        for b in ids {
            if a == b {
                continue;
            }
            let of_a = [make_tentative_key(a), make_status_key(a), make_finalized_key(a)];
            let of_b = [make_tentative_key(b), make_status_key(b), make_finalized_key(b)];
            for x in &of_a {
                for y in &of_b {
                    assert_ne!(x, y);
                }
            }
        }
    }
}

#[test]
fn identifier_that_begins_with_status_shares_a_key() {
    assert_eq!(make_finalized_key("status:X"), make_status_key("X"));
    assert_ne!(make_tentative_key("status:X"), make_tentative_key("X"));
    assert_ne!(make_status_key("status:X"), make_status_key("X"));
    assert_ne!(make_finalized_key("status:X"), make_finalized_key("X"));
}
