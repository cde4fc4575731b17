use trace_sinks::proxy_tracer::ProxyVMTracer;
use trace_sinks::vmtrace::VMOperation;
use trace_sinks::vmtrace::VmOperationTracer;

fn op(pc: usize) -> VMOperation {
    VMOperation { pc, instruction: 0x01, gas_cost: 3 }
}

#[test]
fn navigator_reaches_nth_push_along_single_path() {
    let mut t = VmOperationTracer::toplevel();
    for _ in 0..3 {
        t.prepare_subtrace();
    }
    assert_eq!(t.active_node_index(0), 0);
    assert_eq!(t.active_node_index(1), 1);
    assert_eq!(t.active_node_index(2), 2);
    assert_eq!(t.active_node_index(3), 3);
    let tree = t.drain().expect("a started sink drains a tree");
    assert_eq!(tree.nodes.len(), 4);
    for k in 0..3 {
        assert_eq!(tree.nodes[k].children, vec![k + 1]);
    }
    assert!(tree.nodes[3].children.is_empty());
    assert_eq!(tree.node_index_at_depth(0), 0);
    assert_eq!(tree.node_index_at_depth(3), 3);
}

#[test]
fn navigator_follows_last_child_after_pops() {
    let mut t = VmOperationTracer::toplevel();
    t.prepare_subtrace();
    t.done_subtrace();
    t.prepare_subtrace();
    // The second push adds a second child of the root; the active path
    // descends into the most recently pushed one.
    assert_eq!(t.active_node_index(1), 2);
    let tree = t.drain().expect("a started sink drains a tree");
    assert_eq!(tree.nodes[0].children, vec![1, 2]);
}

#[test]
fn operations_are_recorded_at_the_current_depth() {
    let mut t = VmOperationTracer::toplevel();
    t.trace_executed(op(0));
    t.prepare_subtrace();
    t.trace_executed(op(10));
    t.trace_executed(op(11));
    t.done_subtrace();
    t.trace_executed(op(1));
    let tree = t.drain().expect("a started sink drains a tree");
    assert_eq!(tree.nodes.len(), 2);
    assert_eq!(tree.nodes[0].operations, vec![op(0), op(1)]);
    assert_eq!(tree.nodes[1].operations, vec![op(10), op(11)]);
}

#[test]
fn never_started_sink_drains_nothing() {
    let t = VmOperationTracer::default();
    assert!(t.drain().is_none());
}

#[test]
fn started_sink_drains_root_even_without_events() {
    let t = VmOperationTracer::toplevel();
    let tree = t.drain().expect("a started sink drains a tree");
    assert_eq!(tree.nodes.len(), 1);
    assert!(tree.nodes[0].operations.is_empty());
    assert!(tree.nodes[0].children.is_empty());
}

#[test]
fn proxy_vm_tracer_forwards_to_inner_sink() {
    let mut t = ProxyVMTracer::toplevel();
    t.trace_executed(op(7));
    t.prepare_subtrace();
    t.trace_executed(op(8));
    t.done_subtrace();
    let tree = t.drain().expect("a started proxy drains a tree");
    assert_eq!(tree.nodes.len(), 2);
    assert_eq!(tree.nodes[0].operations, vec![op(7)]);
    assert_eq!(tree.nodes[1].operations, vec![op(8)]);
}

#[test]
fn default_proxy_vm_tracer_drains_nothing() {
    let t = ProxyVMTracer::default();
    assert!(t.drain().is_none());
}
