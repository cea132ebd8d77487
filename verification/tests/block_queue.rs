use rustracer::block_queue::{Block, BlockQueue, Point2u};

#[test]
fn test_area() {
    let block = Block::new((12, 12), 8);
    assert_eq!(block.area(), 64);
}

#[test]
fn test_iter() {
    let mut block = Block::new((12, 12), 8);
    let mut pixels: Vec<Point2u> = Vec::new();
    while let Some(p) = block.next() {
        pixels.push(p);
    }

    assert_eq!(pixels.len(), 64);
    assert_eq!(pixels[0].x, 12);
    assert_eq!(pixels[0].y, 12);
    assert_eq!(pixels[63].x, 19);
    assert_eq!(pixels[63].y, 19);
}

#[test]
fn block_walk_is_row_major() {
    let mut block = Block::new((0, 0), 2);
    assert_eq!(block.next(), Some(Point2u { x: 0, y: 0 }));
    assert_eq!(block.next(), Some(Point2u { x: 1, y: 0 }));
    assert_eq!(block.next(), Some(Point2u { x: 0, y: 1 }));
    assert_eq!(block.next(), Some(Point2u { x: 1, y: 1 }));
    assert_eq!(block.next(), None);
    assert_eq!(block.next(), None);
}

#[test]
fn empty_block_yields_nothing() {
    let mut block = Block::new((3, 4), 0);
    assert_eq!(block.next(), None);
}

#[test]
fn queue_counts_blocks() {
    let q = BlockQueue::new((64, 32), 16);
    assert_eq!(q.num_blocks, 8);

    // dimensions that are no multiple of the block size get a clipped
    // final column and row of blocks
    let q2 = BlockQueue::new((33, 17), 16);
    assert_eq!(q2.num_blocks, 6);

    // a film smaller than one block is a single clipped block
    let q3 = BlockQueue::new((8, 8), 16);
    assert_eq!(q3.num_blocks, 1);
    let only = q3.next().unwrap();
    assert_eq!(only.start, Point2u { x: 0, y: 0 });
    assert_eq!(only.end, Point2u { x: 8, y: 8 });
    assert_eq!(q3.next(), None);

    // an empty film gives no blocks at all
    let q4 = BlockQueue::new((0, 32), 16);
    assert_eq!(q4.num_blocks, 0);
    assert_eq!(q4.next(), None);
}

#[test]
fn queue_covers_the_ragged_edge() {
    // a 65-pixel-wide film needs a fifth, one-pixel-wide column of blocks
    let q = BlockQueue::new((65, 16), 16);
    assert_eq!(q.num_blocks, 5);
    let edge = q.block_at(4).unwrap();
    assert_eq!(edge.start, Point2u { x: 64, y: 0 });
    assert_eq!(edge.end, Point2u { x: 65, y: 16 });

    let mut edge = edge;
    let mut pixels: Vec<Point2u> = Vec::new();
    while let Some(p) = edge.next() {
        pixels.push(p);
    }
    assert_eq!(pixels.len(), 16);
    assert_eq!(pixels[0], Point2u { x: 64, y: 0 });
    assert_eq!(pixels[15], Point2u { x: 64, y: 15 });
}

#[test]
fn queue_block_positions() {
    let q = BlockQueue::new((32, 32), 16);
    assert_eq!(q.num_blocks, 4);
    let b0 = q.block_at(0).unwrap();
    assert_eq!(b0.start, Point2u { x: 0, y: 0 });
    assert_eq!(b0.end, Point2u { x: 16, y: 16 });
    let b1 = q.block_at(1).unwrap();
    assert_eq!(b1.start, Point2u { x: 16, y: 0 });
    let b2 = q.block_at(2).unwrap();
    assert_eq!(b2.start, Point2u { x: 0, y: 16 });
    let b3 = q.block_at(3).unwrap();
    assert_eq!(b3.start, Point2u { x: 16, y: 16 });
    assert_eq!(b3.end, Point2u { x: 32, y: 32 });
    assert!(q.block_at(4).is_none());
}

#[test]
fn queue_hands_each_block_out_once() {
    let q = BlockQueue::new((48, 16), 16);
    assert_eq!(q.num_blocks, 3);
    let mut starts: Vec<Point2u> = Vec::new();
    while let Some(b) = q.next() {
        starts.push(b.start);
    }
    assert_eq!(starts.len(), 3);
    assert_eq!(starts[0], Point2u { x: 0, y: 0 });
    assert_eq!(starts[1], Point2u { x: 16, y: 0 });
    assert_eq!(starts[2], Point2u { x: 32, y: 0 });
    assert_eq!(q.progress() >= 3, true);
}
