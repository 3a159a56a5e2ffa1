use ruukh::channel::WakeChannel;
use ruukh::component::{
    apply_state_mutation, BuilderCreator, BuilderFinisher, Component, Lifecycle, Render,
    RecordComponent, Status,
};
use ruukh::record::{field_eq, record_eq, FieldValue, Record};

fn drive_generically<C>(component: &mut C, props: Record) -> Option<Record>
where
    C: Component<Props = Record, State = Record, Events = i32>,
{
    let previous = component.update(props, 0);
    let _ = component.refresh_state();
    previous
}

fn label_props(label: &str) -> Record {
    Record::from_fields(vec![FieldValue::Text(String::from(label))])
}

fn count_state(count: i64) -> Record {
    Record::from_fields(vec![FieldValue::Int(count)])
}

fn field_as_int(record: &Record, i: usize) -> i64 {
    match record.field_at(i) {
        FieldValue::Int(v) => *v,
        _ => panic!("expected an integer field"),
    }
}

fn bump_count(s: Record) -> Record {
    let count = field_as_int(&s, 0);
    count_state(count + 1)
}

#[test]
fn init_seeds_the_cache_from_the_status_and_marks_nothing() {
    let status = Status::new(count_state(5));
    let mut comp: RecordComponent<i32> = RecordComponent::init(label_props("a"), 9, status);
    assert!(record_eq(comp.cached_state_as_ref(), &count_state(5)));
    assert!(record_eq(comp.props_as_ref(), &label_props("a")));
    assert_eq!(*comp.events_as_ref(), 9);
    assert!(!comp.is_state_dirty());
    assert!(!comp.is_props_dirty());
}

#[test]
fn update_with_equal_props_returns_none_and_stays_clean() {
    let status = Status::new(Record::empty());
    let mut comp: RecordComponent<i32> = RecordComponent::init(label_props("a"), 0, status);
    let old_props = comp.update(label_props("a"), 1);
    assert!(old_props.is_none());
    assert!(!comp.is_props_dirty());
    assert_eq!(*comp.events_as_ref(), 1);
}

#[test]
fn update_with_changed_props_returns_previous_and_marks_dirty_once() {
    let status = Status::new(Record::empty());
    let mut comp: RecordComponent<i32> = RecordComponent::init(label_props("a"), 0, status);
    let old_props = comp.update(label_props("b"), 2);
    let old_props = old_props.expect("a differing field hands the previous props back");
    assert!(record_eq(&old_props, &label_props("a")));
    assert!(record_eq(comp.props_as_ref(), &label_props("b")));
    assert!(comp.is_props_dirty());
    assert!(!comp.is_props_dirty());
}

#[test]
fn update_compares_every_field() {
    let props = Record::from_fields(vec![FieldValue::Int(1), FieldValue::Flag(true)]);
    let status = Status::new(Record::empty());
    let mut comp: RecordComponent<i32> = RecordComponent::init(props, 0, status);
    let changed = Record::from_fields(vec![FieldValue::Int(1), FieldValue::Flag(false)]);
    let old_props = comp.update(changed, 0);
    assert!(old_props.is_some());
    assert!(comp.is_props_dirty());
}

#[test]
fn update_without_declared_props_always_returns_none() {
    let status = Status::new(Record::empty());
    let mut comp: RecordComponent<i32> = RecordComponent::init(Record::empty(), 7, status);
    assert!(comp.update(Record::empty(), 8).is_none());
    assert!(comp.update(Record::empty(), 9).is_none());
    assert!(!comp.is_props_dirty());
    assert_eq!(*comp.events_as_ref(), 9);
}

#[test]
fn set_state_marks_dirty_once_and_fires_the_wake() {
    let status = Status::new(count_state(0));
    let mut comp: RecordComponent<i32> = RecordComponent::init(Record::empty(), 0, status);
    let mut wake = WakeChannel::new();
    comp.set_state(bump_count, &mut wake);
    assert!(comp.is_state_dirty());
    assert!(!comp.is_state_dirty());
    assert!(wake.consume());
}

#[test]
fn refresh_state_reconciles_the_cache_and_reports_once() {
    let status = Status::new(count_state(0));
    let mut comp: RecordComponent<i32> = RecordComponent::init(Record::empty(), 0, status);
    let mut wake = WakeChannel::new();
    comp.set_state(bump_count, &mut wake);
    assert_eq!(field_as_int(comp.cached_state_as_ref(), 0), 0);
    assert!(comp.refresh_state());
    assert_eq!(field_as_int(comp.cached_state_as_ref(), 0), 1);
    assert!(!comp.refresh_state());
}

#[test]
fn stateless_set_state_invokes_the_mutator_and_nothing_else() {
    let status = Status::new(Record::empty());
    let mut comp: RecordComponent<i32> = RecordComponent::init(Record::empty(), 0, status);
    let mut wake = WakeChannel::new();
    let mut called = false;
    comp.set_state(
        |s| {
            called = true;
            s
        },
        &mut wake,
    );
    assert!(called);
    assert!(!comp.is_state_dirty());
    assert!(!wake.consume());
    assert!(!comp.refresh_state());
}

#[test]
fn two_mutations_before_a_refresh_accumulate() {
    let status = Status::new(count_state(0));
    let mut comp: RecordComponent<i32> = RecordComponent::init(Record::empty(), 0, status);
    let mut wake = WakeChannel::new();
    comp.set_state(bump_count, &mut wake);
    comp.set_state(bump_count, &mut wake);
    assert!(comp.is_state_dirty());
    assert!(wake.consume());
    assert!(comp.refresh_state());
    assert_eq!(field_as_int(comp.cached_state_as_ref(), 0), 2);
}

#[test]
fn external_setter_reaches_the_status_without_the_instance() {
    let mut status = Status::new(count_state(10));
    let mut wake = WakeChannel::new();
    apply_state_mutation(&mut status, bump_count, &mut wake);
    assert_eq!(field_as_int(status.state_as_ref(), 0), 11);
    assert!(status.is_state_dirty());
    assert!(wake.consume());
}

#[test]
fn external_setter_on_a_stateless_status_is_a_no_op() {
    let mut status = Status::new(Record::empty());
    let mut wake = WakeChannel::new();
    let mut called = false;
    apply_state_mutation(
        &mut status,
        |s| {
            called = true;
            s
        },
        &mut wake,
    );
    assert!(called);
    assert!(!status.is_state_dirty());
    assert!(!wake.consume());
}

#[test]
fn render_snapshots_the_cached_state() {
    let status = Status::new(count_state(3));
    let comp: RecordComponent<i32> = RecordComponent::init(Record::empty(), 0, status);
    let view = comp.render();
    assert!(record_eq(&view, &count_state(3)));
}

#[test]
fn lifecycle_hooks_are_callable() {
    let status = Status::new(Record::empty());
    let comp: RecordComponent<i32> = RecordComponent::init(label_props("a"), 0, status);
    comp.created();
    comp.mounted();
    comp.updated(label_props("b"));
    comp.destroyed();
}

#[test]
fn records_are_built_field_by_field() {
    let record = Record::builder()
        .int_field(4)
        .flag_field(true)
        .text_field(String::from("hi"))
        .finish();
    assert_eq!(record.len(), 3);
    assert!(field_eq(record.field_at(0), &FieldValue::Int(4)));
    assert!(field_eq(record.field_at(1), &FieldValue::Flag(true)));
    assert!(field_eq(
        record.field_at(2),
        &FieldValue::Text(String::from("hi"))
    ));
}

#[test]
fn unit_builder_builds_the_unit_value() {
    let builder = <() as BuilderCreator>::builder();
    let built: () = builder.finish();
    let _ = built;
}

#[test]
fn the_lifecycle_contract_is_usable_generically() {
    let status = Status::new(Record::empty());
    let mut comp: RecordComponent<i32> = RecordComponent::init(label_props("a"), 0, status);
    let previous = drive_generically(&mut comp, label_props("b"));
    let previous = previous.expect("the changed label hands the previous props back");
    assert!(record_eq(&previous, &label_props("a")));
    assert!(comp.is_props_dirty());
}

#[test]
fn record_equality_is_structural() {
    let a = Record::from_fields(vec![FieldValue::Int(1), FieldValue::Text(String::from("x"))]);
    let b = Record::from_fields(vec![FieldValue::Int(1), FieldValue::Text(String::from("x"))]);
    let c = Record::from_fields(vec![FieldValue::Int(1), FieldValue::Text(String::from("y"))]);
    let d = Record::from_fields(vec![FieldValue::Int(1)]);
    assert!(record_eq(&a, &b));
    assert!(!record_eq(&a, &c));
    assert!(!record_eq(&a, &d));
    assert!(record_eq(&Record::empty(), &Record::empty()));
}

#[test]
fn fields_of_different_kinds_are_never_equal() {
    assert!(!field_eq(&FieldValue::Int(1), &FieldValue::Flag(true)));
    assert!(!field_eq(
        &FieldValue::Int(0),
        &FieldValue::Text(String::from("0"))
    ));
    assert!(field_eq(&FieldValue::Int(7), &FieldValue::Int(7)));
    assert!(!field_eq(&FieldValue::Int(7), &FieldValue::Int(8)));
}

#[test]
fn clone_record_copies_every_field() {
    let a = Record::from_fields(vec![
        FieldValue::Int(1),
        FieldValue::Flag(false),
        FieldValue::Text(String::from("deep")),
    ]);
    let b = ruukh::record::clone_record(&a);
    assert!(record_eq(&a, &b));
}
