use paracosm_gpu::queue::{execution_order, FrameGraph, Queue, QueueError, QueueGraph};

#[test]
fn queue_defaults_to_graphics() {
    assert_eq!(Queue::default(), Queue::Graphics);
    assert_eq!(execution_order(), [Queue::Compute, Queue::Graphics]);
}

#[test]
fn submissions_need_nodes() {
    let mut g: QueueGraph<u64> = QueueGraph::new(Queue::Compute);
    assert_eq!(g.add_submit((1, 2), None), Err(QueueError::NoUnsubmittedNodes));
    assert_eq!(g.add_nodes(), Ok(0));
    assert!(g.has_open_submit());
    assert_eq!(g.plan_run().err(), Some(QueueError::UnsubmittedNodes));
    assert_eq!(g.add_submit((1, 2), None), Ok(0));
    assert!(!g.has_open_submit());
    assert_eq!(g.submit_count(), 1);
    assert_eq!(QueueError::NoUnsubmittedNodes.message(), "Queue has no unsubmitted nodes.");
    assert_eq!(QueueError::UnsubmittedNodes.message(), "Queue has unsubmitted nodes.");
}

#[test]
fn runs_chain_their_timeline() {
    let mut g: QueueGraph<u64> = QueueGraph::new(Queue::Graphics);
    assert_eq!(g.add_nodes(), Ok(0));
    assert_eq!(g.add_nodes(), Ok(0));
    assert_eq!(g.add_submit((10, 11), Some((Queue::Compute, 2))), Ok(0));
    assert_eq!(g.add_nodes(), Ok(1));
    assert_eq!(g.add_submit((20, 21), None), Ok(1));

    assert!(g.run_fits());
    let p = g.plan_run().unwrap();
    assert_eq!(p.frame_index, 0);
    assert_eq!(p.host_wait, None);
    assert!(p.acquires_surfaces);
    assert_eq!(p.command_buffers, vec![10, 20]);
    assert_eq!(p.submits.len(), 2);
    assert_eq!((p.submits[0].timeline_wait, p.submits[0].timeline_signal), (0, 1));
    assert_eq!((p.submits[1].timeline_wait, p.submits[1].timeline_signal), (1, 2));
    assert_eq!(p.submits[0].queue_waits, vec![(Queue::Compute, 2)]);
    assert_eq!(p.submits[1].queue_waits, vec![(Queue::Compute, 2)]);
    assert!(p.submits[0].waits_for_acquire && !p.submits[1].waits_for_acquire);
    assert!(!p.submits[0].finishes_surfaces && p.submits[1].finishes_surfaces);
    g.complete_run();

    assert_eq!(g.add_nodes(), Err(QueueError::Locked));
    assert_eq!(QueueError::Locked.message(), "Cannot add nodes to a queue that has already been run.");

    let p = g.plan_run().unwrap();
    assert_eq!(p.frame_index, 1);
    assert_eq!(p.host_wait, None);
    assert_eq!(p.command_buffers, vec![11, 21]);
    assert_eq!((p.submits[0].timeline_wait, p.submits[1].timeline_signal), (2, 4));
    g.complete_run();

    let p = g.plan_run().unwrap();
    assert_eq!(p.frame_index, 0);
    assert_eq!(p.host_wait, Some(2));
    assert_eq!((p.submits[0].timeline_wait, p.submits[1].timeline_signal), (4, 6));
}

#[test]
fn empty_graph_runs_without_submissions() {
    let mut g: QueueGraph<u64> = QueueGraph::new(Queue::Graphics);
    let p = g.plan_run().unwrap();
    assert!(p.submits.is_empty());
    assert!(!p.acquires_surfaces);
    g.complete_run();
    assert_eq!(g.add_nodes(), Err(QueueError::Locked));
}

#[test]
fn compute_runs_do_not_acquire() {
    let mut g: QueueGraph<u64> = QueueGraph::new(Queue::Compute);
    g.add_nodes().unwrap();
    g.add_submit((1, 2), None).unwrap();
    let p = g.plan_run().unwrap();
    assert!(!p.acquires_surfaces);
    assert!(!p.submits[0].waits_for_acquire);
    assert!(p.submits[0].finishes_surfaces);
}

#[test]
fn clearing_drops_submissions_but_keeps_waits() {
    let mut f: FrameGraph<u64> = FrameGraph::new();
    assert_eq!(f.add_nodes(Queue::Compute), Ok(0));
    assert_eq!(f.add_submit(Queue::Compute, (1, 2), None), Ok(0));
    assert_eq!(f.submit_count(Queue::Compute), 1);
    assert_eq!(f.add_nodes(Queue::Graphics), Ok(0));
    assert!(f.has_open_submit(Queue::Graphics));
    assert!(!f.has_open_submit(Queue::Compute));
    assert_eq!(f.add_submit(Queue::Graphics, (3, 4), Some((Queue::Compute, 2))), Ok(0));
    f.clear_queue(Queue::Graphics);
    assert!(f.run_fits(Queue::Graphics));
    let p = f.plan_run(Queue::Graphics).unwrap();
    assert!(p.submits.is_empty());
    let c = f.plan_run(Queue::Compute).unwrap();
    assert_eq!(c.command_buffers, vec![1]);
    f.complete_run(Queue::Compute);
    assert_eq!(f.add_nodes(Queue::Compute), Err(QueueError::Locked));
    assert_eq!(f.submit_count(Queue::Graphics), 0);
    assert_eq!(f.add_nodes(Queue::Graphics), Ok(0));
}

#[test]
fn run_fits_guards_the_timeline() {
    let mut g: QueueGraph<u64> = QueueGraph::new(Queue::Compute);
    g.add_nodes().unwrap();
    g.add_submit((1, 2), None).unwrap();
    assert!(g.run_fits());
}
