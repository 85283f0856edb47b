use bevy_compute_readback::{
    needs_rebuild, AppState, CompileStatus, ComputeNode, ComputeNodeState, ComputeNodeStatus,
    ComputeShaderBindGroup, ComputeShaderPlugin, ComputeShaderReadback, NodeRunError,
    ReadbackLimit, Workgroups,
};

fn step(node: &mut ComputeNode, state: &mut ComputeNodeState, compile: CompileStatus) {
    node.update(compile, state);
    assert_eq!(state.status, node.status());
}

#[test]
fn scenario_finite_one() {
    let mut node = ComputeNode::new(ReadbackLimit::Finite(1));
    let mut state = ComputeNodeState::default();
    let mut ready_entries = 0;
    step(&mut node, &mut state, CompileStatus::Compiling);
    assert_eq!(node.status(), ComputeNodeStatus::Loading);
    assert_eq!(node.count(), 0);
    step(&mut node, &mut state, CompileStatus::Ready);
    assert_eq!(node.status(), ComputeNodeStatus::Ready);
    assert_eq!(node.count(), 1);
    ready_entries += 1;
    step(&mut node, &mut state, CompileStatus::Ready);
    assert_eq!(node.status(), ComputeNodeStatus::Completed);
    assert_eq!(node.count(), 0);
    for _ in 0..2 {
        step(&mut node, &mut state, CompileStatus::Ready);
        assert_eq!(node.status(), ComputeNodeStatus::Completed);
        assert_eq!(node.count(), 0);
    }
    assert_eq!(ready_entries, 1);
}

#[test]
fn scenario_finite_three() {
    let mut node = ComputeNode::new(ReadbackLimit::Finite(3));
    let mut state = ComputeNodeState::default();
    for frame in 1..=10usize {
        step(&mut node, &mut state, CompileStatus::Ready);
        if frame <= 3 {
            assert_eq!(node.status(), ComputeNodeStatus::Ready);
            assert_eq!(node.count(), frame);
        } else {
            assert_eq!(node.status(), ComputeNodeStatus::Completed);
            assert_eq!(node.count(), 0);
        }
    }
}

#[test]
fn scenario_compile_failure() {
    let mut node = ComputeNode::new(ReadbackLimit::Finite(3));
    let mut state = ComputeNodeState::default();
    step(&mut node, &mut state, CompileStatus::Compiling);
    assert_eq!(node.status(), ComputeNodeStatus::Loading);
    step(&mut node, &mut state, CompileStatus::Failed);
    assert_eq!(node.status(), ComputeNodeStatus::Error);
    for compile in [
        CompileStatus::Ready,
        CompileStatus::Queued,
        CompileStatus::Compiling,
        CompileStatus::Ready,
    ] {
        step(&mut node, &mut state, compile);
        assert_eq!(node.status(), ComputeNodeStatus::Error);
    }
    node.reset(&mut state);
    assert_eq!(node.status(), ComputeNodeStatus::Loading);
    assert_eq!(state.status, ComputeNodeStatus::Loading);
    step(&mut node, &mut state, CompileStatus::Ready);
    assert_eq!(node.status(), ComputeNodeStatus::Ready);
    assert_eq!(node.count(), 1);
}

#[test]
fn finite_limit_enters_ready_n_times() {
    for n in 0..6usize {
        let mut node = ComputeNode::new(ReadbackLimit::Finite(n));
        let mut state = ComputeNodeState::default();
        let mut ready = 0;
        loop {
            step(&mut node, &mut state, CompileStatus::Ready);
            if node.status() == ComputeNodeStatus::Completed {
                break;
            }
            assert_eq!(node.status(), ComputeNodeStatus::Ready);
            ready += 1;
        }
        assert_eq!(ready, n);
    }
}

#[test]
fn zero_limit_completes_at_once() {
    let mut node = ComputeNode::new(ReadbackLimit::Finite(0));
    let mut state = ComputeNodeState::default();
    step(&mut node, &mut state, CompileStatus::Ready);
    assert_eq!(node.status(), ComputeNodeStatus::Completed);
    assert_eq!(node.count(), 0);
}

#[test]
fn largest_limit_counts_up() {
    let mut node = ComputeNode::new(ReadbackLimit::Finite(usize::MAX));
    let mut state = ComputeNodeState::default();
    step(&mut node, &mut state, CompileStatus::Ready);
    step(&mut node, &mut state, CompileStatus::Ready);
    assert_eq!(node.status(), ComputeNodeStatus::Ready);
    assert_eq!(node.count(), 2);
}

#[test]
fn infinite_limit_follows_compile_status() {
    let mut node = ComputeNode::default();
    let mut state = ComputeNodeState::default();
    let compiles = [
        CompileStatus::Queued,
        CompileStatus::Ready,
        CompileStatus::Ready,
        CompileStatus::Compiling,
        CompileStatus::Ready,
        CompileStatus::Ready,
        CompileStatus::Ready,
    ];
    for compile in compiles {
        step(&mut node, &mut state, compile);
        let expected = if compile == CompileStatus::Ready {
            ComputeNodeStatus::Ready
        } else {
            ComputeNodeStatus::Loading
        };
        assert_eq!(node.status(), expected);
        assert_eq!(node.count(), 0);
    }
}

#[test]
fn completed_goes_back_to_loading_while_compiling() {
    let mut node = ComputeNode::new(ReadbackLimit::Finite(1));
    let mut state = ComputeNodeState::default();
    step(&mut node, &mut state, CompileStatus::Ready);
    step(&mut node, &mut state, CompileStatus::Ready);
    assert_eq!(node.status(), ComputeNodeStatus::Completed);
    step(&mut node, &mut state, CompileStatus::Compiling);
    assert_eq!(node.status(), ComputeNodeStatus::Loading);
    step(&mut node, &mut state, CompileStatus::Ready);
    assert_eq!(node.status(), ComputeNodeStatus::Ready);
    assert_eq!(node.count(), 1);
}

#[test]
fn reset_is_idempotent() {
    let mut node = ComputeNode::new(ReadbackLimit::Finite(4));
    let mut state = ComputeNodeState::default();
    step(&mut node, &mut state, CompileStatus::Ready);
    step(&mut node, &mut state, CompileStatus::Ready);
    assert_eq!(node.count(), 2);
    node.reset(&mut state);
    assert_eq!((node.status(), node.count()), (ComputeNodeStatus::Loading, 0));
    node.reset(&mut state);
    assert_eq!((node.status(), node.count()), (ComputeNodeStatus::Loading, 0));
    assert_eq!(node.limit(), ReadbackLimit::Finite(4));
    assert_eq!(state.status, ComputeNodeStatus::Loading);
}

#[test]
fn update_publishes_only_changes() {
    let mut node = ComputeNode::new(ReadbackLimit::Infinite);
    let mut state = ComputeNodeState::from(ComputeNodeStatus::Init);
    node.update(CompileStatus::Queued, &mut state);
    assert_eq!(state.status, ComputeNodeStatus::Init);
    node.update(CompileStatus::Ready, &mut state);
    assert_eq!(state.status, ComputeNodeStatus::Ready);
}

#[test]
fn run_dispatches_only_when_ready() {
    let size = Workgroups { x: 8, y: 4, z: 1 };
    let mut node = ComputeNode::new(ReadbackLimit::Finite(1));
    let mut state = ComputeNodeState::default();
    let group = Some(7u32);
    assert_eq!(node.run(&group, size), Ok(None));
    step(&mut node, &mut state, CompileStatus::Ready);
    assert!(node.dispatches());
    assert_eq!(node.run(&group, size), Ok(Some(size)));
    step(&mut node, &mut state, CompileStatus::Ready);
    assert!(!node.dispatches());
    assert_eq!(node.run(&group, size), Ok(None));
}

#[test]
fn run_without_bind_group_fails() {
    let node = ComputeNode::new(ReadbackLimit::Infinite);
    let none: Option<u32> = None;
    assert_eq!(
        node.run(&none, Workgroups { x: 1, y: 1, z: 1 }),
        Err(NodeRunError::MissingBindGroup)
    );
}

#[test]
fn extract_reports_each_transition_once() {
    let mut main = AppState::default();
    let loading = ComputeNodeState::default();
    let ready = ComputeNodeState::from(ComputeNodeStatus::Ready);
    assert_eq!(loading.extract_to_main(&mut main), None);
    assert_eq!(ready.extract_to_main(&mut main), Some(ComputeNodeStatus::Ready));
    assert_eq!(main.status, ComputeNodeStatus::Ready);
    assert_eq!(ready.extract_to_main(&mut main), None);
    assert_eq!(main.status, ComputeNodeStatus::Ready);
    assert_eq!(loading.extract_to_main(&mut main), Some(ComputeNodeStatus::Loading));
    assert_eq!(main.status, ComputeNodeStatus::Loading);
}

#[test]
fn readback_attaches_and_detaches() {
    let mut readback: ComputeShaderReadback<&str> = ComputeShaderReadback::default();
    assert!(!readback.is_attached());
    readback.on_shader_ready(Some("buffer"));
    assert_eq!(readback.readback(), &Some("buffer"));
    readback.on_shader_ready(None);
    assert_eq!(readback.readback(), &Some("buffer"));
    readback.on_shader_complete();
    assert!(!readback.is_attached());
    readback.on_enter(ComputeNodeStatus::Loading, Some("texture"));
    assert!(!readback.is_attached());
    readback.on_enter(ComputeNodeStatus::Ready, Some("texture"));
    assert_eq!(readback.readback(), &Some("texture"));
    readback.on_enter(ComputeNodeStatus::Completed, Some("texture"));
    assert_eq!(readback.readback(), &None);
}

#[test]
fn bind_group_rebuilds_when_missing_or_changed() {
    let empty: Option<ComputeShaderBindGroup<u8>> = None;
    let built = Some(ComputeShaderBindGroup { bind_group: 3u8 });
    assert!(needs_rebuild(&empty, false));
    assert!(needs_rebuild(&empty, true));
    assert!(!needs_rebuild(&built, false));
    assert!(needs_rebuild(&built, true));
}

#[test]
fn defaults() {
    let plugin = ComputeShaderPlugin::default();
    assert_eq!(plugin.limit, ReadbackLimit::Infinite);
    assert!(!plugin.remove_on_complete);
    assert_eq!(ReadbackLimit::default(), ReadbackLimit::Infinite);
    assert_eq!(ComputeNodeStatus::default(), ComputeNodeStatus::Loading);
    assert_eq!(ComputeNodeState::default().status, ComputeNodeStatus::Loading);
    assert_eq!(AppState::default().status, ComputeNodeStatus::Loading);
    let node = plugin.node();
    assert_eq!((node.status(), node.count()), (ComputeNodeStatus::Loading, 0));
}

#[test]
fn plugin_removes_node_only_when_completed() {
    let keep = ComputeShaderPlugin { limit: ReadbackLimit::Finite(1), remove_on_complete: false };
    let drop = ComputeShaderPlugin { limit: ReadbackLimit::Finite(1), remove_on_complete: true };
    let done = ComputeNodeState::from(ComputeNodeStatus::Completed);
    let ready = ComputeNodeState::from(ComputeNodeStatus::Ready);
    assert!(!keep.removes_node(&done));
    assert!(drop.removes_node(&done));
    assert!(!drop.removes_node(&ready));
}
