use fractal_dispatch::fractal::{
    FractalDescriptor, FractalName, IteratedSinZ, JuliaDescriptor, Mandelbrot, NewtonRaphsonZ3,
    NewtonRaphsonZ4, NovaNewtonRaphsonZ3, NovaNewtonRaphsonZ4,
};
use fractal_dispatch::messages::FragmentTask;
use fractal_dispatch::tiles::{
    create_params, create_params_for_iterated_sin_z, create_params_for_julia,
    create_params_for_mandelbrot, create_params_for_newton_raphson_z_3,
    create_params_for_newton_raphson_z_4, create_params_for_nova_newton_raphson_z_3,
    create_params_for_nova_newton_raphson_z_4, descriptor, line_bits, tile_range,
};
use fractal_dispatch::types::{Complex, U8Data};

const NAMES: [FractalName; 7] = [
    FractalName::Julia,
    FractalName::Mandelbrot,
    FractalName::IteratedSinZ,
    FractalName::NewtonRaphsonZ3,
    FractalName::NewtonRaphsonZ4,
    FractalName::NovaNewtonRaphsonZ3,
    FractalName::NovaNewtonRaphsonZ4,
];

/// The rectangles of the sixteen tiles, computed by stepping through the
/// square in floating point.
fn stepped_ranges() -> Vec<(f64, f64, f64, f64)> {
    let mut ranges = Vec::new();
    let step_size_x = (1.2 - (-1.2)) / 4.0;
    let step_size_y = (1.2 - (-1.2)) / 4.0;
    let mut min_x = -1.2;
    let mut min_y = -1.2;
    let mut max_x = -0.6;
    let mut max_y = -0.6;
    for _ in 0..16 {
        ranges.push((min_x, min_y, max_x, max_y));
        min_x = max_x;
        if min_x < 1.2 {
            max_x = max_x + step_size_x;
        } else {
            min_x = -1.2;
            max_x = -0.6;
            min_y = max_y;
            max_y = max_y + step_size_y;
        }
    }
    ranges
}

fn corners(task: &FragmentTask) -> (f64, f64, f64, f64) {
    (
        f64::from_bits(task.range.min.x),
        f64::from_bits(task.range.min.y),
        f64::from_bits(task.range.max.x),
        f64::from_bits(task.range.max.y),
    )
}

#[test]
fn grid_lines_are_the_nearest_floats() {
    assert_eq!(f64::from_bits(line_bits(0)), -1.2);
    assert_eq!(f64::from_bits(line_bits(1)), -0.6);
    assert_eq!(f64::from_bits(line_bits(2)), 0.0);
    assert_eq!(f64::from_bits(line_bits(3)), 0.6);
    assert_eq!(f64::from_bits(line_bits(4)), 1.2);
    assert_eq!(line_bits(2), 0.0f64.to_bits());
}

#[test]
fn tiles_are_those_of_the_stepped_walk() {
    let expected = stepped_ranges();
    for name in NAMES {
        let params = create_params(name);
        assert_eq!(params.len(), 16);
        for (k, task) in params.iter().enumerate() {
            assert_eq!(corners(task), expected[k]);
            assert_eq!(task.range, tile_range(k));
        }
    }
}

#[test]
fn tile_partition() {
    let params = create_params_for_mandelbrot();
    let mut area = 0.0;
    for (k, task) in params.iter().enumerate() {
        let (min_x, min_y, max_x, max_y) = corners(task);
        assert!((min_x - (-1.2 + 0.6 * (k % 4) as f64)).abs() <= 1e-12);
        assert!((min_y - (-1.2 + 0.6 * (k / 4) as f64)).abs() <= 1e-12);
        assert!((max_x - min_x - 0.6).abs() <= 1e-12);
        assert!((max_y - min_y - 0.6).abs() <= 1e-12);
        area += (max_x - min_x) * (max_y - min_y);
    }
    assert!((area - 2.4 * 2.4).abs() <= 1e-12);
    for a in 0..16 {
        for b in 0..16 {
            let (ax0, ay0, ax1, ay1) = corners(&params[a]);
            let (bx0, by0, bx1, by1) = corners(&params[b]);
            let overlap = ax0 < bx1 && bx0 < ax1 && ay0 < by1 && by0 < ay1;
            assert_eq!(overlap, a == b);
        }
    }
}

#[test]
fn every_task_has_the_fixed_settings() {
    for name in NAMES {
        for task in create_params(name) {
            assert_eq!(task.id, U8Data::new(0, 16));
            assert_eq!(task.max_iteration, 64);
            assert_eq!(task.resolution.nx, 300);
            assert_eq!(task.resolution.ny, 300);
            assert_eq!(task.fractal, descriptor(name));
            assert_eq!(task.fractal.name(), name);
        }
    }
}

#[test]
fn kernel_parameters() {
    assert_eq!(
        descriptor(FractalName::Julia),
        FractalDescriptor::Julia(JuliaDescriptor {
            c: Complex::new(0.285f64.to_bits(), 0.013f64.to_bits()),
            divergence_threshold_square: 4.0f64.to_bits(),
        })
    );
    assert_eq!(
        descriptor(FractalName::IteratedSinZ),
        FractalDescriptor::IteratedSinZ(IteratedSinZ {
            c: Complex::new(1.0f64.to_bits(), 0.3f64.to_bits()),
        })
    );
    assert_eq!(descriptor(FractalName::Mandelbrot), FractalDescriptor::Mandelbrot(Mandelbrot {}));
    assert_eq!(
        descriptor(FractalName::NewtonRaphsonZ3),
        FractalDescriptor::NewtonRaphsonZ3(NewtonRaphsonZ3 {})
    );
    assert_eq!(
        descriptor(FractalName::NewtonRaphsonZ4),
        FractalDescriptor::NewtonRaphsonZ4(NewtonRaphsonZ4 {})
    );
    assert_eq!(
        descriptor(FractalName::NovaNewtonRaphsonZ3),
        FractalDescriptor::NovaNewtonRaphsonZ3(NovaNewtonRaphsonZ3 {})
    );
    assert_eq!(
        descriptor(FractalName::NovaNewtonRaphsonZ4),
        FractalDescriptor::NovaNewtonRaphsonZ4(NovaNewtonRaphsonZ4 {})
    );
}

#[test]
fn named_generators_agree_with_the_general_one() {
    assert_eq!(create_params_for_julia(), create_params(FractalName::Julia));
    assert_eq!(create_params_for_mandelbrot(), create_params(FractalName::Mandelbrot));
    assert_eq!(create_params_for_iterated_sin_z(), create_params(FractalName::IteratedSinZ));
    assert_eq!(create_params_for_newton_raphson_z_3(), create_params(FractalName::NewtonRaphsonZ3));
    assert_eq!(create_params_for_newton_raphson_z_4(), create_params(FractalName::NewtonRaphsonZ4));
    assert_eq!(
        create_params_for_nova_newton_raphson_z_3(),
        create_params(FractalName::NovaNewtonRaphsonZ3)
    );
    assert_eq!(
        create_params_for_nova_newton_raphson_z_4(),
        create_params(FractalName::NovaNewtonRaphsonZ4)
    );
}

#[test]
fn fractal_names_are_read_as_written() {
    let texts = [
        "Julia",
        "Mandelbrot",
        "IteratedSinZ",
        "NewtonRaphsonZ3",
        "NewtonRaphsonZ4",
        "NovaNewtonRaphsonZ3",
        "NovaNewtonRaphsonZ4",
    ];
    for (name, text) in NAMES.iter().zip(texts) {
        assert_eq!(name.text(), text);
        assert_eq!(FractalName::parse(text), Some(*name));
    }
    assert_eq!(FractalName::parse("julia"), None);
    assert_eq!(FractalName::parse(""), None);
    assert_eq!(FractalName::parse("NovaNewtonRaphson"), None);
    assert_eq!(FractalName::parse("Julia "), None);
}
