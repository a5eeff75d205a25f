use mandelbrot::control::{MAX_ITERATIONS, RASTER_HEIGHT, RASTER_WIDTH};
use mandelbrot::escape::{EscapeSearch, Verdict};
use mandelbrot::field::FieldBuilder;
use mandelbrot::glyph::render_mandelbrot;
use num::complex::Complex;

fn escape_time(cx: f64, cy: f64, max_iters: usize) -> usize {
    let c = Complex::new(cx, cy);
    let mut z = Complex::new(0.0, 0.0);
    let mut search = EscapeSearch::new(max_iters);
    loop {
        match search.observe(z.norm() > 2.0) {
            Verdict::Finished(count) => return count,
            Verdict::Continue(next) => {
                search = next;
                z = z * z + c;
            }
        }
    }
}

fn default_frame() -> Vec<Vec<usize>> {
    let (x_min, x_max, y_min, y_max, scale) = (-2.0, 1.0, -1.0, 1.0, 1.0);
    let mut builder = FieldBuilder::new(RASTER_WIDTH, RASTER_HEIGHT, MAX_ITERATIONS);
    while let Some((img_x, img_y)) = builder.next_cell() {
        let x_frac = (img_x as f64 / RASTER_WIDTH as f64) * scale;
        let y_frac = (img_y as f64 / RASTER_HEIGHT as f64) * scale;
        let cx = x_min + (x_max - x_min) * x_frac;
        let cy = y_min + (y_max - y_min) * y_frac;
        builder = builder.record(escape_time(cx, cy, MAX_ITERATIONS));
    }
    builder.finish()
}

#[test]
fn default_frame_has_the_raster_shape_and_bounded_counts() {
    let field = default_frame();
    assert_eq!(field.len(), 24);
    for row in field.iter() {
        assert_eq!(row.len(), 100);
        for &count in row.iter() {
            assert!(count <= 1000);
        }
    }
}

#[test]
fn default_frame_known_cells() {
    let field = default_frame();
    // Top left cell: c = -2 - i, which leaves the bound after one step.
    assert_eq!(field[0][0], 1);
    // Row 12 is the real axis; column 0 is c = -2, whose orbit stays at magnitude 2.
    assert_eq!(field[12][0], 1000);
    // Column 50 of that row is c = -0.5, inside the main cardioid.
    assert_eq!(field[12][50], 1000);
    // Column 99 of that row is c = 0.97, which escapes quickly.
    assert_eq!(field[12][99], 3);
}

#[test]
fn default_frame_renders_to_full_lines() {
    let field = default_frame();
    let lines = render_mandelbrot(&field);
    assert_eq!(lines.len(), 24);
    for line in lines.iter() {
        assert_eq!(line.chars().count(), 100);
    }
    assert_eq!(lines[0].chars().next(), Some(' '));
    assert_eq!(lines[12].chars().next(), Some('%'));
    assert_eq!(lines[12].chars().nth(50), Some('%'));
    assert_eq!(lines[12].chars().last(), Some('.'));
    assert_eq!(render_mandelbrot(&default_frame()), lines);
}
