use smoothlife::compute::bindings::{GameOfLifePipeline, LayoutHandle, PipelineHandle};
use smoothlife::compute::{
    CompileStatus, ComputeProgram, Dispatch, GameOfLifeNode, GameOfLifeState,
};

fn pipeline() -> GameOfLifePipeline {
    GameOfLifePipeline::new(LayoutHandle(7), PipelineHandle(11), PipelineHandle(13))
}

#[test]
fn node_starts_loading_and_idle() {
    let node = GameOfLifeNode::default();
    assert_eq!(node.state, GameOfLifeState::Loading);
    assert_eq!(node.run(&pipeline()), None);
    assert_eq!(node.awaited(&pipeline()), Some(PipelineHandle(11)));
    assert_eq!(pipeline().pipeline_of(ComputeProgram::Init), PipelineHandle(11));
}

#[test]
fn loading_stays_until_init_is_ready() {
    let mut node = GameOfLifeNode::default();
    for _ in 0..100 {
        node.update(CompileStatus::Pending);
        assert_eq!(node.state, GameOfLifeState::Loading);
        assert_eq!(node.run(&pipeline()), None);
        node.update(CompileStatus::Failed);
        assert_eq!(node.state, GameOfLifeState::Loading);
        assert_eq!(node.run(&pipeline()), None);
    }
}

#[test]
fn full_course_of_the_node() {
    let mut node = GameOfLifeNode::default();
    node.update(CompileStatus::Pending);
    node.update(CompileStatus::Ready);
    assert_eq!(node.state, GameOfLifeState::Init);
    assert_eq!(
        node.run(&pipeline()),
        Some(Dispatch { pipeline: PipelineHandle(11), workgroups: (160, 90, 1) })
    );
    assert_eq!(node.awaited(&pipeline()), Some(PipelineHandle(13)));
    node.update(CompileStatus::Pending);
    assert_eq!(node.state, GameOfLifeState::Init);
    node.update(CompileStatus::Ready);
    assert_eq!(node.state, GameOfLifeState::Update);
    assert_eq!(node.awaited(&pipeline()), None);
    for status in [CompileStatus::Pending, CompileStatus::Failed, CompileStatus::Ready] {
        node.update(status);
        assert_eq!(node.state, GameOfLifeState::Update);
        assert_eq!(
            node.run(&pipeline()),
            Some(Dispatch { pipeline: PipelineHandle(13), workgroups: (160, 90, 1) })
        );
    }
}
