use crm::content::{ContentItem, ContentSet};
use crm::message::{compose, OutboundMessage, RecipientRecord};

fn item(id: u32) -> ContentItem {
    ContentItem { id, name: format!("item {}", id), url: format!("https://content/{}", id) }
}

fn record(email: &str, name: &str) -> RecipientRecord {
    RecipientRecord { email: email.to_string(), name: name.to_string() }
}

#[test]
fn compose_addresses_the_record_alone() {
    let set = ContentSet::from_items(vec![item(1)]);
    let msg = compose(record("a@x.com", "Ann"), &set, "Welcome", "noreply@crm");
    assert_eq!(
        msg,
        OutboundMessage {
            label: "Welcome".to_string(),
            sender: "noreply@crm".to_string(),
            recipients: vec!["a@x.com".to_string()],
            contents: ContentSet::from_items(vec![item(1)]),
        }
    );
}

#[test]
fn compose_ignores_the_name() {
    let set = ContentSet::empty();
    let one = compose(record("a@x.com", "Ann"), &set, "Recall", "s@crm");
    let other = compose(record("a@x.com", "Someone Else"), &set, "Recall", "s@crm");
    assert_eq!(one, other);
}

#[test]
fn compose_carries_the_whole_set_for_every_recipient() {
    let set = ContentSet::from_items(vec![item(3), item(1), item(2)]);
    let first = compose(record("a@x.com", "A"), &set, "Recall", "s@crm");
    let second = compose(record("b@x.com", "B"), &set, "Recall", "s@crm");
    assert_eq!(first.contents.items(), &vec![item(3), item(1), item(2)]);
    assert_eq!(second.contents, first.contents);
    assert_eq!(set.len(), 3);
}

#[test]
fn compose_with_empty_set_has_no_contents() {
    let msg = compose(record("a@x.com", "A"), &ContentSet::empty(), "Recall", "s@crm");
    assert!(msg.contents.is_empty());
    assert_eq!(msg.contents.len(), 0);
    assert_eq!(msg.recipients.len(), 1);
}

#[test]
fn empty_set_holds_nothing() {
    let set = ContentSet::empty();
    assert!(set.is_empty());
    assert_eq!(set.len(), 0);
    assert_eq!(set.items(), &Vec::<ContentItem>::new());
}

#[test]
fn from_items_keeps_order_and_duplicates() {
    let set = ContentSet::from_items(vec![item(2), item(1), item(2)]);
    assert_eq!(set.items(), &vec![item(2), item(1), item(2)]);
    assert_eq!(set.len(), 3);
    assert!(!set.is_empty());
}

#[test]
fn gather_keeps_the_resolved_in_order() {
    let outcomes: Vec<Result<ContentItem, String>> = vec![
        Ok(item(5)),
        Err("gone".to_string()),
        Ok(item(2)),
        Err("broken".to_string()),
        Ok(item(9)),
    ];
    let set = ContentSet::gather(outcomes);
    assert_eq!(set.items(), &vec![item(5), item(2), item(9)]);
}

#[test]
fn gather_of_nothing_is_empty() {
    let set = ContentSet::gather(Vec::<Result<ContentItem, ()>>::new());
    assert!(set.is_empty());
}

#[test]
fn gather_of_failures_only_is_empty() {
    let outcomes: Vec<Result<ContentItem, u8>> = vec![Err(1), Err(2), Err(3)];
    assert_eq!(ContentSet::gather(outcomes), ContentSet::empty());
}

#[test]
fn gather_of_successes_only_keeps_all() {
    let outcomes: Vec<Result<ContentItem, u8>> = vec![Ok(item(1)), Ok(item(2))];
    assert_eq!(ContentSet::gather(outcomes), ContentSet::from_items(vec![item(1), item(2)]));
}

#[test]
fn shared_set_is_the_same_set() {
    let set = ContentSet::from_items(vec![item(7), item(8)]);
    let shared = set.share();
    assert_eq!(shared, set);
    assert_eq!(shared.items(), &vec![item(7), item(8)]);
    assert!(std::ptr::eq(shared.items(), set.items()));
}
