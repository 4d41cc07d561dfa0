use quadbatch::batch::{generate_indices, Batch};
use quadbatch::renderer::Renderer;
use quadbatch::square::Square;

fn unit_square() -> Square {
    Square {
        position: [0f32.to_bits(), 0f32.to_bits()],
        colour: [1f32.to_bits(), 1f32.to_bits(), 1f32.to_bits()],
        size: 1f32.to_bits(),
    }
}

fn add_unit_square(r: &mut Renderer) {
    let s = unit_square();
    let right = (0f32 + 1f32).to_bits();
    let bottom = (0f32 - 1f32).to_bits();
    r.add_square(s, right, bottom);
}

#[test]
fn new_batch_is_empty() {
    let b = Batch::new();
    assert_eq!(b.items, 0);
    assert_eq!(b.vertices.len(), 0);
    assert_eq!(b.vertex_data.len(), 0);
    assert_eq!(b.index_data.len(), 0);
}

#[test]
fn new_renderer_opens_one_empty_batch() {
    let r = Renderer::new(1000);
    assert_eq!(r.batches.len(), 1);
    assert_eq!(r.batches[0].items, 0);
    assert_eq!(r.max_items_in_batch, 1000);
}

#[test]
fn batch_boundary_capacity_two() {
    let mut r = Renderer::new(2);
    add_unit_square(&mut r);
    add_unit_square(&mut r);
    add_unit_square(&mut r);
    assert_eq!(r.batches.len(), 2);
    assert_eq!(r.batches[0].items, 2);
    assert_eq!(r.batches[1].items, 1);
}

#[test]
fn batch_count_is_ceiling_of_total_over_capacity() {
    let capacity: u32 = 3;
    let total: u32 = 7;
    let mut r = Renderer::new(capacity);
    for _ in 0..total {
        add_unit_square(&mut r);
    }
    let expected_batches = ((total + capacity - 1) / capacity) as usize;
    assert_eq!(r.batches.len(), expected_batches);
    for i in 0..r.batches.len() - 1 {
        assert_eq!(r.batches[i].items, capacity);
    }
    let last = &r.batches[r.batches.len() - 1];
    assert_eq!(last.items, total - capacity * (expected_batches as u32 - 1));
}

#[test]
fn capacity_one_opens_a_batch_per_square() {
    let mut r = Renderer::new(1);
    add_unit_square(&mut r);
    add_unit_square(&mut r);
    assert_eq!(r.batches.len(), 2);
    assert_eq!(r.batches[0].items, 1);
    assert_eq!(r.batches[1].items, 1);
}

#[test]
fn generated_indices_offset_by_four_per_quad() {
    let indices = generate_indices(2);
    assert_eq!(indices, vec![0, 1, 2, 3, 2, 1, 4, 5, 6, 7, 6, 5]);
}

#[test]
fn generated_indices_stay_within_own_vertices() {
    for k in [0u32, 1, 3, 16] {
        let indices = generate_indices(k);
        assert_eq!(indices.len(), 6 * k as usize);
        for &idx in &indices {
            assert!((idx as u32) < 4 * k);
        }
    }
}

#[test]
fn full_batches_are_untouched_by_later_squares() {
    fn add_coloured(r: &mut Renderer, red: f32) {
        let s = Square {
            position: [0f32.to_bits(), 0f32.to_bits()],
            colour: [red.to_bits(), 0f32.to_bits(), 0f32.to_bits()],
            size: 1f32.to_bits(),
        };
        r.add_square(s, 1f32.to_bits(), (-1f32).to_bits());
    }
    let mut r = Renderer::new(2);
    add_coloured(&mut r, 0.25);
    add_coloured(&mut r, 0.5);
    let first_vertices = r.batches[0].vertices.clone();
    let first_blob = r.batches[0].vertex_data.clone();
    add_coloured(&mut r, 0.75);
    assert_eq!(r.batches.len(), 2);
    assert_eq!(r.batches[0].vertices, first_vertices);
    assert_eq!(r.batches[0].vertex_data, first_blob);
    assert_eq!(r.batches[1].vertices[0].colour[0], 0.75f32.to_bits());
}

#[test]
fn largest_capacity_fills_the_index_format() {
    let indices = generate_indices(quadbatch::batch::MAX_BATCH_ITEMS);
    assert_eq!(indices.len(), 6 * quadbatch::batch::MAX_BATCH_ITEMS as usize);
    assert_eq!(*indices.iter().max().unwrap(), u16::MAX);
    let r = Renderer::new(quadbatch::batch::MAX_BATCH_ITEMS);
    assert_eq!(r.max_items_in_batch, quadbatch::batch::MAX_BATCH_ITEMS);
}

#[test]
fn batch_counts_scale_with_items() {
    let mut b = Batch::new();
    let s = unit_square();
    let right = (0f32 + 1f32).to_bits();
    let bottom = (0f32 - 1f32).to_bits();
    b.add_square(s, right, bottom);
    b.add_square(s, right, bottom);
    assert_eq!(b.items, 2);
    assert_eq!(b.vertices.len(), 8);
    assert_eq!(b.vertex_data.len(), 2 * 4 * 24);
    assert_eq!(b.index_data.len(), 2 * 6 * 2);
    assert_eq!(b.index_count(), 12);
}
