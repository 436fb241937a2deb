use trade_copier::protocol::{classify_message, split_messages, take_messages, Mt5Message, PendingAcks};

#[test]
fn messages_are_framed_by_newlines() {
    let (msgs, rest) = take_messages("OK:1\n  \n ERROR:2 \r\nparti");
    assert_eq!(msgs, vec!["OK:1".to_string(), "ERROR:2".to_string()]);
    assert_eq!(rest, "parti");
}

#[test]
fn buffer_without_newline_is_all_rest() {
    let (msgs, rest) = take_messages("{\"profit\": 1");
    assert!(msgs.is_empty());
    assert_eq!(rest, "{\"profit\": 1");
    let (msgs, rest) = take_messages("");
    assert!(msgs.is_empty());
    assert_eq!(rest, "");
}

#[test]
fn chunking_does_not_change_messages() {
    let whole = "OK:1\nERROR:x\n{\"profit\":2}\nta";
    let (all, all_rest) = take_messages(whole);
    let (first, rest1) = take_messages("OK:1\nERR");
    let mut second_input = rest1.clone();
    second_input.push_str("OR:x\n{\"profit\":2}\nta");
    let (second, rest2) = take_messages(&second_input);
    let mut joined = first;
    joined.extend(second);
    assert_eq!(joined, all);
    assert_eq!(rest2, all_rest);
}

#[test]
fn split_messages_on_chars() {
    let buf: Vec<char> = "a\nb\n\nc".chars().collect();
    let (msgs, rest) = split_messages(&buf);
    assert_eq!(msgs, vec![vec!['a'], vec!['b']]);
    assert_eq!(rest, vec!['c']);
}

#[test]
fn message_kinds() {
    assert_eq!(classify_message("{\"profit\": 12.5}"), Mt5Message::Profit);
    assert_eq!(classify_message("{\"balance\": 12.5}"), Mt5Message::Unknown);
    assert_eq!(classify_message("OK:123"), Mt5Message::Acknowledgement);
    assert_eq!(classify_message("ERROR:bad volume"), Mt5Message::Acknowledgement);
    assert_eq!(classify_message("ok:123"), Mt5Message::Unknown);
    assert_eq!(classify_message(" profit {"), Mt5Message::Unknown);
    assert_eq!(classify_message(""), Mt5Message::Unknown);
}

#[test]
fn pending_acks_register_and_remove() {
    let mut p: PendingAcks<&str> = PendingAcks::new();
    assert_eq!(p.len(), 0);
    assert_eq!(p.oldest(), None);
    p.register(7, "seven");
    p.register(3, "three");
    assert_eq!(p.len(), 2);
    assert!(p.contains(7) && p.contains(3) && !p.contains(4));
    assert_eq!(p.oldest(), Some(&"seven"));
    p.register(7, "again");
    assert_eq!(p.len(), 2);
    assert_eq!(p.oldest(), Some(&"again"));
    assert_eq!(p.remove(4), None);
    assert_eq!(p.remove(7), Some("again"));
    assert_eq!(p.oldest(), Some(&"three"));
    assert_eq!(p.remove(3), Some("three"));
    assert_eq!(p.len(), 0);
}

#[test]
fn register_then_remove_restores() {
    let mut p: PendingAcks<u8> = PendingAcks::new();
    p.register(1, 10);
    p.register(2, 20);
    p.register(9, 90);
    assert_eq!(p.remove(9), Some(90));
    assert_eq!(p.len(), 2);
    assert_eq!(p.oldest(), Some(&10));
    assert!(!p.contains(9));
}
