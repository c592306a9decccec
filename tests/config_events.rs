use newton_fractal::config::{
    iterations_from_input, CameraConfig, Complex, Config, ConfigChangeEvent, RootConfig, Rgba,
    MAX_ROOTS,
};

fn c(re: f32, im: f32) -> Complex {
    Complex { re: re.to_bits(), im: im.to_bits() }
}

fn rgba(r: f32, g: f32, b: f32, a: f32) -> Rgba {
    Rgba { r: r.to_bits(), g: g.to_bits(), b: b.to_bits(), a: a.to_bits() }
}

fn roots_of(config: &Config) -> Vec<RootConfig> {
    config.roots.clone()
}

#[test]
fn default_config_has_two_roots() {
    let config = Config::default();
    assert_eq!(config.num_iterations, 30);
    assert_eq!(
        config.roots,
        vec![
            RootConfig { position: c(0.5, 0.0), color: rgba(0.0, 0.75, 0.0, 1.0) },
            RootConfig { position: c(-0.5, 0.0), color: rgba(0.0, 0.0, 1.0, 0.0) },
        ]
    );
    assert_eq!(config.camera, CameraConfig { position: c(0.0, 0.0), zoom: 1.0f32.to_bits() });
}

#[test]
fn default_root_is_opaque_black_at_origin() {
    let root = RootConfig::default();
    assert_eq!(root, RootConfig { position: c(0.0, 0.0), color: rgba(0.0, 0.0, 0.0, 1.0) });
}

#[test]
fn set_iterations() {
    let mut config = Config::default();
    config.apply(&ConfigChangeEvent::NumIterations(7));
    assert_eq!(config.num_iterations, 7);
    assert_eq!(config.roots.len(), 2);
}

#[test]
fn add_root_appends_default_root() {
    let mut config = Config::default();
    config.apply(&ConfigChangeEvent::AddRoot);
    assert_eq!(config.roots.len(), 3);
    assert_eq!(config.roots[2], RootConfig::default());
    assert_eq!(config.roots[0].position, c(0.5, 0.0));
}

#[test]
fn add_then_remove_last_restores_roots() {
    let mut config = Config::default();
    config.apply(&ConfigChangeEvent::RootColor { index: 1, color: rgba(0.25, 0.5, 0.125, 1.0) });
    let before = roots_of(&config);
    config.apply(&ConfigChangeEvent::AddRoot);
    config.apply(&ConfigChangeEvent::RemoveRoot { index: before.len() });
    assert_eq!(config.roots, before);
}

#[test]
fn remove_root_shifts_higher_indices_down() {
    let mut config = Config::default();
    config.apply(&ConfigChangeEvent::AddRoot);
    config.apply(&ConfigChangeEvent::RemoveRoot { index: 0 });
    assert_eq!(config.roots.len(), 2);
    assert_eq!(config.roots[0].position, c(-0.5, 0.0));
    assert_eq!(config.roots[1], RootConfig::default());
}

#[test]
fn remove_root_out_of_range_is_ignored() {
    let mut config = Config::default();
    let before = roots_of(&config);
    config.apply(&ConfigChangeEvent::RemoveRoot { index: 2 });
    assert_eq!(config.roots, before);
}

#[test]
fn add_root_at_capacity_is_ignored() {
    let mut config = Config::default();
    for _ in 0..20 {
        config.apply(&ConfigChangeEvent::AddRoot);
    }
    assert_eq!(config.roots.len(), MAX_ROOTS - 1);
}

#[test]
fn set_position_changes_only_that_position() {
    let mut config = Config::default();
    let before = roots_of(&config);
    config.apply(&ConfigChangeEvent::RootPosition { index: 1, position: c(0.25, -0.75) });
    assert_eq!(config.roots[1].position, c(0.25, -0.75));
    assert_eq!(config.roots[1].color, before[1].color);
    assert_eq!(config.roots[0], before[0]);
    assert_eq!(config.num_iterations, 30);
    assert_eq!(config.camera, CameraConfig::default());
}

#[test]
fn set_color_changes_only_that_color() {
    let mut config = Config::default();
    let before = roots_of(&config);
    config.apply(&ConfigChangeEvent::RootColor { index: 0, color: rgba(1.0, 0.0, 0.0, 1.0) });
    assert_eq!(config.roots[0].color, rgba(1.0, 0.0, 0.0, 1.0));
    assert_eq!(config.roots[0].position, before[0].position);
    assert_eq!(config.roots[1], before[1]);
}

#[test]
fn out_of_range_edits_are_ignored() {
    let mut config = Config::default();
    let before = roots_of(&config);
    config.apply(&ConfigChangeEvent::RootPosition { index: 2, position: c(3.0, 3.0) });
    config.apply(&ConfigChangeEvent::RootColor { index: 5, color: rgba(1.0, 1.0, 1.0, 1.0) });
    assert_eq!(config.roots, before);
    assert_eq!(config.num_iterations, 30);
    assert_eq!(config.camera, CameraConfig::default());
}

#[test]
fn camera_events() {
    let mut config = Config::default();
    config.apply(&ConfigChangeEvent::CameraPosition(c(1.5, -2.0)));
    config.apply(&ConfigChangeEvent::CameraZoom(2.5f32.to_bits()));
    assert_eq!(config.camera, CameraConfig { position: c(1.5, -2.0), zoom: 2.5f32.to_bits() });
    assert_eq!(config.roots.len(), 2);
}

#[test]
fn negative_iteration_input_counts_as_zero() {
    assert_eq!(iterations_from_input(-3), 0);
    assert_eq!(iterations_from_input(0), 0);
    assert_eq!(iterations_from_input(42), 42);
    assert_eq!(iterations_from_input(i32::MAX), 2147483647);
}
