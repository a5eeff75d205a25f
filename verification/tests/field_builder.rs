use mandelbrot::control::{MAX_ITERATIONS, RASTER_HEIGHT, RASTER_WIDTH};
use mandelbrot::field::FieldBuilder;

#[test]
fn cells_come_in_row_major_order() {
    let mut builder = FieldBuilder::new(3, 2, 1000);
    let mut order = Vec::new();
    let mut count = 10;
    while let Some(cell) = builder.next_cell() {
        order.push(cell);
        builder = builder.record(count);
        count += 1;
    }
    assert_eq!(order, vec![(0, 0), (1, 0), (2, 0), (0, 1), (1, 1), (2, 1)]);
    assert_eq!(builder.finish(), vec![vec![10, 11, 12], vec![13, 14, 15]]);
}

#[test]
fn field_has_the_configured_shape() {
    let mut builder = FieldBuilder::new(RASTER_WIDTH, RASTER_HEIGHT, MAX_ITERATIONS);
    let mut recorded = 0;
    while let Some((x, y)) = builder.next_cell() {
        assert!(x < RASTER_WIDTH);
        assert!(y < RASTER_HEIGHT);
        builder = builder.record((x + y) % (MAX_ITERATIONS + 1));
        recorded += 1;
    }
    assert_eq!(recorded, 2400);
    let field = builder.finish();
    assert_eq!(field.len(), 24);
    for (y, row) in field.iter().enumerate() {
        assert_eq!(row.len(), 100);
        for (x, &count) in row.iter().enumerate() {
            assert_eq!(count, x + y);
        }
    }
}

#[test]
fn single_cell_field() {
    let builder = FieldBuilder::new(1, 1, 5);
    assert_eq!(builder.next_cell(), Some((0, 0)));
    let builder = builder.record(5);
    assert_eq!(builder.next_cell(), None);
    assert_eq!(builder.finish(), vec![vec![5]]);
}

#[test]
fn raster_without_columns_is_whole_from_the_start() {
    let builder = FieldBuilder::new(0, 3, 1000);
    assert_eq!(builder.next_cell(), None);
    let field = builder.finish();
    assert_eq!(field, vec![Vec::<usize>::new(), Vec::new(), Vec::new()]);
}

#[test]
fn raster_without_rows_is_whole_from_the_start() {
    let builder = FieldBuilder::new(4, 0, 1000);
    assert_eq!(builder.next_cell(), None);
    assert!(builder.finish().is_empty());
}

#[test]
fn next_cell_does_not_advance_the_builder() {
    let builder = FieldBuilder::new(2, 2, 9);
    assert_eq!(builder.next_cell(), Some((0, 0)));
    assert_eq!(builder.next_cell(), Some((0, 0)));
    let builder = builder.record(0);
    assert_eq!(builder.next_cell(), Some((1, 0)));
    let builder = builder.record(9);
    assert_eq!(builder.next_cell(), Some((0, 1)));
}
