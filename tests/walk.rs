use json_eater::{CsvWriter, ElementCounter, Event, Path, Seed, Segment, Value, Visitor};

#[derive(Debug, Default, Clone, PartialEq)]
struct Collect {
    items: Vec<(String, String)>,
}

impl Visitor<'_> for Collect {
    fn visit_any(&mut self, path: &Path, value: Value<'_>) {
        self.items.push((path.to_text(), value.to_text()));
    }
}

fn field(k: &str) -> Event<'static> {
    Event::Field(k.to_string())
}

fn pairs(items: &[(&str, &str)]) -> Vec<(String, String)> {
    items.iter().map(|(p, v)| (p.to_string(), v.to_string())).collect()
}

fn walk<'de>(events: Vec<Event<'de>>) -> (Vec<(String, String)>, usize) {
    let mut visitor = Collect::default();
    let mut seed = Seed::new(&mut visitor);
    for e in events {
        seed.handle(e);
    }
    let depth = seed.path().len();
    drop(seed);
    (visitor.items, depth)
}

/// The events for
/// `{"name":"John","isAlive":true,"age":-27,"address":{"streetAddress":"21 2nd Street"},"numbers":[12.32]}`,
/// with `"missing": null` after `"age"` when asked.
fn example_events(with_null: bool) -> Vec<Event<'static>> {
    let mut e = vec![
        field("name"),
        Event::Leaf(Value::Str("John")),
        Event::Leave,
        field("isAlive"),
        Event::Leaf(Value::Boolean(true)),
        Event::Leave,
        field("age"),
        Event::Leaf(Value::I64(-27)),
        Event::Leave,
    ];
    if with_null {
        e.extend(vec![field("missing"), Event::Leaf(Value::Null), Event::Leave]);
    }
    e.extend(vec![
        field("address"),
        field("streetAddress"),
        Event::Leaf(Value::Str("21 2nd Street")),
        Event::Leave,
        Event::Leave,
        field("numbers"),
        Event::Index(0),
        Event::Leaf(Value::F64(format!("{}", 12.32f64))),
        Event::Leave,
        Event::Index(1),
        Event::Leave,
        Event::Leave,
    ]);
    e
}

#[test]
fn example_document_pairs_in_order() {
    let (items, depth) = walk(example_events(false));
    let expected = pairs(&[
        ("name", "John"),
        ("isAlive", "true"),
        ("age", "-27"),
        ("address/streetAddress", "21 2nd Street"),
        ("numbers/0", "12.32"),
    ]);
    assert_eq!(items, expected);
    assert_eq!(depth, 0);
}

#[test]
fn consume_example_json_events() {
    let (items, depth) = walk(example_events(true));
    let expected = pairs(&[
        ("name", "John"),
        ("isAlive", "true"),
        ("age", "-27"),
        ("missing", ""),
        ("address/streetAddress", "21 2nd Street"),
        ("numbers/0", "12.32"),
    ]);
    assert_eq!(items, expected);
    assert_eq!(depth, 0);
}

#[test]
fn scalar_document_dispatches_once_at_empty_path() {
    let (items, depth) = walk(vec![Event::Leaf(Value::U64(42))]);
    assert_eq!(items, pairs(&[("", "42")]));
    assert_eq!(depth, 0);
    let (items, _) = walk(vec![Event::Leaf(Value::Null)]);
    assert_eq!(items, pairs(&[("", "")]));
}

#[test]
fn empty_containers_dispatch_nothing() {
    // `{}`: the mapping reports no entries.
    let (items, depth) = walk(vec![]);
    assert!(items.is_empty());
    assert_eq!(depth, 0);
    // `[]`: the probe for a first element finds nothing.
    let (items, depth) = walk(vec![Event::Index(0), Event::Leave]);
    assert!(items.is_empty());
    assert_eq!(depth, 0);
    // `{"a":{},"b":[[]]}`
    let (items, depth) = walk(vec![
        field("a"),
        Event::Leave,
        field("b"),
        Event::Index(0),
        Event::Index(0),
        Event::Leave,
        Event::Leave,
        Event::Index(1),
        Event::Leave,
        Event::Leave,
    ]);
    assert!(items.is_empty());
    assert_eq!(depth, 0);
}

#[test]
fn keys_keep_declaration_order() {
    // `{"b":1,"a":[true,false]}`
    let (items, depth) = walk(vec![
        field("b"),
        Event::Leaf(Value::U64(1)),
        Event::Leave,
        field("a"),
        Event::Index(0),
        Event::Leaf(Value::Boolean(true)),
        Event::Leave,
        Event::Index(1),
        Event::Leaf(Value::Boolean(false)),
        Event::Leave,
        Event::Index(2),
        Event::Leave,
        Event::Leave,
    ]);
    assert_eq!(items, pairs(&[("b", "1"), ("a/0", "true"), ("a/1", "false")]));
    assert_eq!(depth, 0);
}

#[test]
fn nested_arrays_chain_zero_indices() {
    let depth_d: usize = 6;
    let mut events = Vec::new();
    for _ in 0..depth_d {
        events.push(Event::Index(0));
    }
    events.push(Event::Leaf(Value::String("deep".to_string())));
    for _ in 0..depth_d {
        events.push(Event::Leave);
        events.push(Event::Index(1));
        events.push(Event::Leave);
    }
    let (items, depth) = walk(events);
    assert_eq!(items, pairs(&[("0/0/0/0/0/0", "deep")]));
    assert_eq!(depth, 0);
}

#[test]
fn sibling_arrays_do_not_corrupt_paths() {
    // `[[1,2],[3]]`
    let (items, depth) = walk(vec![
        Event::Index(0),
        Event::Index(0),
        Event::Leaf(Value::U64(1)),
        Event::Leave,
        Event::Index(1),
        Event::Leaf(Value::U64(2)),
        Event::Leave,
        Event::Index(2),
        Event::Leave,
        Event::Leave,
        Event::Index(1),
        Event::Index(0),
        Event::Leaf(Value::U64(3)),
        Event::Leave,
        Event::Index(1),
        Event::Leave,
        Event::Leave,
        Event::Index(2),
        Event::Leave,
    ]);
    assert_eq!(items, pairs(&[("0/0", "1"), ("0/1", "2"), ("1/0", "3")]));
    assert_eq!(depth, 0);
}

#[test]
fn path_display_joins_with_single_separator() {
    let mut p = Path::new();
    assert_eq!(p.to_text(), "");
    assert!(p.is_empty());
    p.push(Segment::String("a".to_string()));
    assert_eq!(p.to_text(), "a");
    p.push(Segment::from(10));
    p.push(Segment::String("b c".to_string()));
    assert_eq!(p.to_text(), "a/10/b c");
    assert_eq!(p.len(), 3);
    assert_eq!(
        p.segments(),
        vec![
            Segment::String("a".to_string()),
            Segment::Index(10),
            Segment::String("b c".to_string())
        ]
    );
    p.pop();
    assert_eq!(p.to_text(), "a/10");
    p.pop();
    p.pop();
    assert_eq!(p.to_text(), "");
    p.pop();
    assert_eq!(p.len(), 0);
}

#[test]
fn segment_display() {
    assert_eq!(Segment::Index(0).to_text(), "0");
    assert_eq!(Segment::Index(1234).to_text(), "1234");
    assert_eq!(Segment::String("x/y".to_string()).to_text(), "x/y");
    assert_eq!(Segment::from(7usize), Segment::Index(7));
}

#[test]
fn value_display() {
    assert_eq!(Value::Null.to_text(), "");
    assert_eq!(Value::Str("").to_text(), "");
    assert_eq!(Value::Str("hi").to_text(), "hi");
    assert_eq!(Value::String("owned".to_string()).to_text(), "owned");
    assert_eq!(Value::U64(0).to_text(), "0");
    assert_eq!(Value::U64(u64::MAX).to_text(), "18446744073709551615");
    assert_eq!(Value::I64(-27).to_text(), "-27");
    assert_eq!(Value::I64(i64::MIN).to_text(), "-9223372036854775808");
    assert_eq!(Value::I64(i64::MAX).to_text(), "9223372036854775807");
    assert_eq!(Value::Boolean(true).to_text(), "true");
    assert_eq!(Value::Boolean(false).to_text(), "false");
    assert_eq!(Value::F32(format!("{}", 0.5f32)).to_text(), "0.5");
    assert_eq!(Value::F64(format!("{}", 12.32f64)).to_text(), "12.32");
    assert_eq!(Value::from(5u64), Value::U64(5));
    assert_eq!(Value::from(-5i64), Value::I64(-5));
    assert_eq!(Value::from(true), Value::Boolean(true));
    assert_eq!(Value::from("s"), Value::Str("s"));
    assert_eq!(Value::from("s".to_string()), Value::String("s".to_string()));
}

#[test]
fn csv_writer_writes_one_line_per_leaf() {
    let mut seed = Seed::new(CsvWriter::new(String::new()));
    for e in example_events(true) {
        seed.handle(e);
    }
    let text = seed.into_visitor().into_inner();
    assert_eq!(
        text,
        "name, John\nisAlive, true\nage, -27\nmissing, \naddress/streetAddress, 21 2nd Street\nnumbers/0, 12.32\n"
    );
}

#[test]
fn csv_writer_inner_mut() {
    let mut w = CsvWriter::new(String::from("head\n"));
    w.inner_mut().push_str("x\n");
    let mut p = Path::new();
    p.push(Segment::Index(3));
    w.visit_any(&p, Value::U64(9));
    assert_eq!(w.into_inner(), "head\nx\n3, 9\n");
}

#[derive(Default)]
struct Typed {
    bools: Vec<bool>,
    others: usize,
}

impl Visitor<'_> for Typed {
    fn visit_any(&mut self, _path: &Path, _value: Value<'_>) {
        self.others += 1;
    }

    fn visit_bool(&mut self, _path: &Path, value: bool) {
        self.bools.push(value);
    }
}

#[test]
fn typed_hooks_override_the_generic_one() {
    let mut v = Typed::default();
    let mut seed = Seed::new(&mut v);
    seed.visit_bool(true);
    seed.handle(Event::Leaf(Value::Boolean(false)));
    seed.visit_u64(3);
    seed.visit_null();
    seed.visit_string("s".to_string());
    seed.visit_str("t");
    seed.visit_i64(-1);
    seed.visit_f64("1.5".to_string());
    seed.visit_f32("2.5".to_string());
    drop(seed);
    assert_eq!(v.bools, vec![true, false]);
    assert_eq!(v.others, 7);
}

#[test]
fn seed_tracks_the_path() {
    let mut seed = Seed::new(Collect::default());
    seed.enter_field("k".to_string());
    seed.enter_index(4);
    assert_eq!(seed.path().to_text(), "k/4");
    seed.visit_u64(1);
    seed.leave();
    assert_eq!(seed.path().to_text(), "k");
    seed.leave();
    assert!(seed.path().is_empty());
    seed.leave();
    assert!(seed.path().is_empty());
    assert_eq!(seed.into_visitor().items, pairs(&[("k/4", "1")]));
}

#[test]
fn cut_walk_keeps_pairs_already_dispatched() {
    // `{"a":1,"b":` : the source fails after reporting the key `b`.
    let (items, depth) = walk(vec![
        field("a"),
        Event::Leaf(Value::U64(1)),
        Event::Leave,
        field("b"),
    ]);
    assert_eq!(items, pairs(&[("a", "1")]));
    assert_eq!(depth, 1);
}

#[test]
fn element_counter_numbers_elements_from_zero() {
    // `[[1,2],[3]]`, with each array's elements numbered by its own counter.
    let mut seed = Seed::new(Collect::default());
    let mut outer = ElementCounter::new();
    seed.enter_element(&mut outer);
    let mut inner = ElementCounter::new();
    seed.enter_element(&mut inner);
    seed.visit_u64(1);
    seed.leave();
    seed.enter_element(&mut inner);
    seed.visit_u64(2);
    seed.leave();
    assert!(inner.can_advance());
    seed.leave();
    seed.enter_element(&mut outer);
    let mut inner = ElementCounter::new();
    seed.enter_element(&mut inner);
    seed.visit_u64(3);
    seed.leave();
    seed.leave();
    assert!(seed.path().is_empty());
    assert_eq!(seed.into_visitor().items, pairs(&[("0/0", "1"), ("0/1", "2"), ("1/0", "3")]));
}

#[test]
fn mut_reference_visitor_receives_as_the_visitor() {
    let mut typed = Typed::default();
    {
        let by_ref = &mut typed;
        let p = Path::new();
        by_ref.visit_bool(&p, true);
        by_ref.visit_u64(&p, 1);
        by_ref.visit_any(&p, Value::Null);
    }
    assert_eq!(typed.bools, vec![true]);
    assert_eq!(typed.others, 2);
}
