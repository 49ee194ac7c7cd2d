use moonrs::edges::{Composed, Mentioned};
use moonrs::nodes::{Article, StaticEvent};

#[test]
fn mentioned_snapshots_identities_and_weights() {
    let a = Article::new("A1".to_string());
    let e = StaticEvent::new("E1".to_string());
    let m = Mentioned::new(&a, &e, 800_000, -300_000);
    assert_eq!(m.source(), "Article");
    assert_eq!(m.target(), "Event");
    assert_eq!(m.src_id(), "A1");
    assert_eq!(m.tgt_id(), "E1");
    assert_eq!(m.relevance(), 800_000);
    assert_eq!(m.sentiment(), -300_000);
}

#[test]
fn mentioned_outlives_its_entities() {
    let a = Article::new("A1".to_string());
    let e = StaticEvent::new("E1".to_string());
    let m = Mentioned::new(&a, &e, 800_000, -300_000);
    drop(a);
    drop(e);
    let copy = m.clone();
    assert_eq!(copy.src_id(), "A1");
    assert_eq!(copy.tgt_id(), "E1");
    assert_eq!(copy.source(), "Article");
    assert_eq!(copy.target(), "Event");
    assert_eq!(copy.relevance(), 800_000);
    assert_eq!(copy.sentiment(), -300_000);
}

#[test]
fn composed_is_attribute_free() {
    let c = Composed {};
    assert_eq!(c, Composed {});
}
