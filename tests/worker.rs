use pathtracer::schedule::{partition_rows, pixel_location, RowChunk};
use pathtracer::update::{FrameBuffer, RenderUpdate};
use pathtracer::worker::{ChunkWorker, WorkerAction};

#[test]
fn delivered_run_shades_each_pixel_then_completes() {
    let mut w = ChunkWorker::new(RowChunk { first_row: 1, end_row: 3 }, 2);
    let mut seen = Vec::new();
    loop {
        let a = w.action();
        seen.push(a);
        if a == WorkerAction::Stop {
            break;
        }
        w.report(true);
    }
    assert_eq!(
        seen,
        vec![
            WorkerAction::Shade { index: 2 },
            WorkerAction::Shade { index: 3 },
            WorkerAction::Shade { index: 4 },
            WorkerAction::Shade { index: 5 },
            WorkerAction::Complete,
            WorkerAction::Stop,
        ]
    );
    assert!(w.is_stopped());
}

#[test]
fn failed_delivery_abandons_the_chunk() {
    let mut w = ChunkWorker::new(RowChunk { first_row: 0, end_row: 2 }, 3);
    assert_eq!(w.action(), WorkerAction::Shade { index: 0 });
    w.report(true);
    assert_eq!(w.action(), WorkerAction::Shade { index: 1 });
    w.report(false);
    assert!(w.is_stopped());
    assert_eq!(w.action(), WorkerAction::Stop);
    w.report(true);
    assert_eq!(w.action(), WorkerAction::Stop);
}

#[test]
fn failed_completion_message_also_stops() {
    let mut w = ChunkWorker::new(RowChunk { first_row: 0, end_row: 1 }, 1);
    w.report(true);
    assert_eq!(w.action(), WorkerAction::Complete);
    w.report(false);
    assert_eq!(w.action(), WorkerAction::Stop);
}

#[test]
fn empty_chunk_completes_at_once() {
    let mut w = ChunkWorker::new(RowChunk { first_row: 2, end_row: 2 }, 5);
    assert!(!w.is_stopped());
    assert_eq!(w.action(), WorkerAction::Complete);
    w.report(true);
    assert_eq!(w.action(), WorkerAction::Stop);
}

#[test]
fn workers_and_frame_assemble_a_whole_image() {
    let (width, height) = (5usize, 7usize);
    let chunks = partition_rows(height, 2);
    let mut frame = FrameBuffer::new(width, height);
    assert!(frame.apply(RenderUpdate::BeginRender { chunks: chunks.len() }));
    for chunk in chunks.iter().rev() {
        let mut w = ChunkWorker::new(*chunk, width);
        loop {
            match w.action() {
                WorkerAction::Shade { index } => {
                    let (col, row) = pixel_location(width, index);
                    let value = (row * 100 + col) as u32;
                    w.report(frame.apply(RenderUpdate::PutPixel { index, value }));
                }
                WorkerAction::Complete => w.report(frame.apply(RenderUpdate::ChunkComplete)),
                WorkerAction::Stop => break,
            }
        }
    }
    assert!(frame.is_complete());
    for row in 0..height {
        for col in 0..width {
            assert_eq!(frame.pixels()[row * width + col], (row * 100 + col) as u32);
        }
    }
}
