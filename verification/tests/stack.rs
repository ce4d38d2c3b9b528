use hades::layers::{Layer, LayerBehavior, LayerParam, LayerStack, LayerStackError};

fn named(name: &str, id: u64) -> Layer {
    Layer::new(String::from(name), id, LayerBehavior::Observer)
}

fn order(stack: &LayerStack) -> Vec<u64> {
    stack.get_layers().iter().map(|l| l.id).collect()
}

#[test]
fn layer_constructor_state() {
    let l = Layer::new(String::from("demo"), 7, LayerBehavior::ConsumeAll);
    assert_eq!(l.get_name(), "demo");
    assert_eq!(l.id, 7);
    assert_eq!(l.behavior, LayerBehavior::ConsumeAll);
    assert!(!l.attached);
    assert_eq!(l.updates, 0);
    assert_eq!(l.events_seen, 0);
}

#[test]
fn identity_compares_ids_only() {
    let a = named("A", 1);
    let also_a = named("other name", 1);
    let b = named("B", 2);
    assert!(a.same_identity(&also_a));
    assert!(!a.same_identity(&b));
}

#[test]
fn attach_detach_lifecycle() {
    let mut l = named("demo", 1);
    l.on_attach(LayerParam::Window(3));
    assert!(l.attached);
    l.on_detach();
    assert!(!l.attached);
}

#[test]
fn push_order_layers_before_overlays() {
    // push_layer(A) -> [A]; push_layer(B) -> [A,B]; push_overlay(C) ->
    // [A,B,C]; push_layer(D) -> [A,B,D,C].  Back-to-front dispatch therefore
    // visits C, D, B, A.
    let mut stack = LayerStack::new();
    stack.push_layer(named("A", 1));
    assert_eq!(order(&stack), vec![1]);
    stack.push_layer(named("B", 2));
    assert_eq!(order(&stack), vec![1, 2]);
    stack.push_overlay(named("C", 3));
    assert_eq!(order(&stack), vec![1, 2, 3]);
    stack.push_layer(named("D", 4));
    assert_eq!(order(&stack), vec![1, 2, 4, 3]);
}

#[test]
fn pop_layer_removes_first_match_and_moves_cursor() {
    let mut stack = LayerStack::new();
    stack.push_layer(named("A", 1));
    stack.push_layer(named("B", 2));
    stack.push_overlay(named("C", 3));
    let removed = stack.pop_layer(&named("B probe", 2)).expect("B is present");
    assert_eq!(removed.id, 2);
    assert_eq!(removed.get_name(), "B");
    assert_eq!(order(&stack), vec![1, 3]);
    // The cursor retreated: a new regular layer lands between A and C.
    stack.push_layer(named("D", 4));
    assert_eq!(order(&stack), vec![1, 4, 3]);
}

#[test]
fn pop_layer_reports_missing_identity() {
    let mut stack = LayerStack::new();
    stack.push_layer(named("A", 1));
    let err = stack.pop_layer(&named("ghost", 42)).unwrap_err();
    assert_eq!(err, LayerStackError::NotFound { id: 42 });
    assert_eq!(order(&stack), vec![1]);
}

#[test]
fn pop_layer_searches_only_the_regular_partition() {
    let mut stack = LayerStack::new();
    stack.push_layer(named("A", 1));
    stack.push_overlay(named("C", 3));
    let err = stack.pop_layer(&named("C probe", 3)).unwrap_err();
    assert_eq!(err, LayerStackError::NotFound { id: 3 });
    assert_eq!(order(&stack), vec![1, 3]);
}

#[test]
fn pop_overlay_searches_only_the_overlay_partition() {
    let mut stack = LayerStack::new();
    stack.push_layer(named("A", 1));
    stack.push_overlay(named("C", 3));
    stack.push_overlay(named("E", 5));
    let err = stack.pop_overlay(&named("A probe", 1)).unwrap_err();
    assert_eq!(err, LayerStackError::NotFound { id: 1 });
    let removed = stack.pop_overlay(&named("C probe", 3)).expect("C is present");
    assert_eq!(removed.id, 3);
    assert_eq!(order(&stack), vec![1, 5]);
    // The cursor did not move: a regular layer still lands before E.
    stack.push_layer(named("B", 2));
    assert_eq!(order(&stack), vec![1, 2, 5]);
}

#[test]
fn len_counts_both_partitions() {
    let mut stack = LayerStack::new();
    assert_eq!(stack.len(), 0);
    stack.push_layer(named("A", 1));
    stack.push_overlay(named("C", 3));
    assert_eq!(stack.len(), 2);
}
