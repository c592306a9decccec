use vstd::prelude::*;

verus! {

/// Number of root slots in the parameter block. A configuration holds fewer
/// roots than this, so that the coefficients of its polynomial (degree + 1
/// of them) fit in `MAX_ROOTS + 1` slots.
pub const MAX_ROOTS: usize = 10;

/// Bit pattern of the binary32 value `0.0`.
pub const ZERO_BITS: u32 = 0;

/// Bit pattern of the binary32 value `1.0`.
pub const ONE_BITS: u32 = 0x3f80_0000;

/// Bit pattern of the binary32 value `-1.0`.
pub const NEG_ONE_BITS: u32 = 0xbf80_0000;

/// Bit pattern of the binary32 value `0.5`.
pub const HALF_BITS: u32 = 0x3f00_0000;

/// Bit pattern of the binary32 value `-0.5`.
pub const NEG_HALF_BITS: u32 = 0xbf00_0000;

/// Bit pattern of the binary32 value `0.75`.
pub const THREE_QUARTERS_BITS: u32 = 0x3f40_0000;

/// A complex number whose real and imaginary parts are IEEE-754 binary32
/// values, each held as its bit pattern.
#[derive(Clone, Copy, Debug, PartialEq, Eq, Structural)]
pub struct Complex {
    pub re: u32,
    pub im: u32,
}

/// An RGBA color; each channel is a binary32 value in `[0, 1]`, held as its
/// bit pattern.
#[derive(Clone, Copy, Debug, PartialEq, Eq, Structural)]
pub struct Rgba {
    pub r: u32,
    pub g: u32,
    pub b: u32,
    pub a: u32,
}

/// One root of the visualized polynomial and the color of its basin.
#[derive(Clone, Copy, Debug, PartialEq, Eq, Structural)]
pub struct RootConfig {
    pub position: Complex,
    pub color: Rgba,
}

/// Where the camera looks and how far it is zoomed (`zoom` is a binary32
/// bit pattern).
#[derive(Clone, Copy, Debug, PartialEq, Eq, Structural)]
pub struct CameraConfig {
    pub position: Complex,
    pub zoom: u32,
}

/// The editable state of the application.
#[derive(Debug)]
pub struct Config {
    pub num_iterations: u32,
    pub roots: Vec<RootConfig>,
    pub camera: CameraConfig,
}

/// The mathematical value of a [`Config`]: the roots as a sequence.
pub struct ConfigView {
    pub num_iterations: u32,
    pub roots: Seq<RootConfig>,
    pub camera: CameraConfig,
}

impl View for Config {
    type V = ConfigView;

    open spec fn view(&self) -> ConfigView {
        ConfigView { num_iterations: self.num_iterations, roots: self.roots@, camera: self.camera }
    }
}

/// One discrete change to a [`Config`].
#[derive(Clone, Copy, Debug, PartialEq, Eq, Structural)]
pub enum ConfigChangeEvent {
    NumIterations(u32),
    AddRoot,
    RemoveRoot { index: usize },
    RootPosition { index: usize, position: Complex },
    RootColor { index: usize, color: Rgba },
    CameraPosition(Complex),
    CameraZoom(u32),
}

/// The complex number `0 + 0i`.
pub open spec fn complex_zero() -> Complex {
    Complex { re: ZERO_BITS, im: ZERO_BITS }
}

/// The root that a new root starts as: at the origin, opaque black.
pub open spec fn default_root() -> RootConfig {
    RootConfig {
        position: complex_zero(),
        color: Rgba { r: ZERO_BITS, g: ZERO_BITS, b: ZERO_BITS, a: ONE_BITS },
    }
}

/// The camera at start: centred on the origin, zoom `1.0`.
pub open spec fn default_camera() -> CameraConfig {
    CameraConfig { position: complex_zero(), zoom: ONE_BITS }
}

/// The two roots at start: green at `0.5`, blue at `-0.5`.
pub open spec fn default_roots() -> Seq<RootConfig> {
    seq![
        RootConfig {
            position: Complex { re: HALF_BITS, im: ZERO_BITS },
            color: Rgba { r: ZERO_BITS, g: THREE_QUARTERS_BITS, b: ZERO_BITS, a: ONE_BITS },
        },
        RootConfig {
            position: Complex { re: NEG_HALF_BITS, im: ZERO_BITS },
            color: Rgba { r: ZERO_BITS, g: ZERO_BITS, b: ONE_BITS, a: ZERO_BITS },
        },
    ]
}

impl ConfigView {
    /// The configuration keeps room for its coefficients.
    pub open spec fn wf(self) -> bool {
        self.roots.len() < MAX_ROOTS
    }

    /// `self` with `roots` in place of its roots.
    pub open spec fn with_roots(self, roots: Seq<RootConfig>) -> ConfigView {
        ConfigView { num_iterations: self.num_iterations, roots, camera: self.camera }
    }

    /// The configuration after `event`. Every event whose index is out of
    /// range, and an added root that would leave no room for the
    /// coefficients, leaves the configuration as it was.
    pub open spec fn after(self, event: ConfigChangeEvent) -> ConfigView {
        match event {
            ConfigChangeEvent::NumIterations(n) => ConfigView {
                num_iterations: n,
                roots: self.roots,
                camera: self.camera,
            },
            ConfigChangeEvent::AddRoot => if self.roots.len() + 1 < MAX_ROOTS {
                self.with_roots(self.roots.push(default_root()))
            } else {
                self
            },
            ConfigChangeEvent::RemoveRoot { index } => if index < self.roots.len() {
                self.with_roots(self.roots.remove(index as int))
            } else {
                self
            },
            ConfigChangeEvent::RootPosition { index, position } => if index
                < self.roots.len() {
                self.with_roots(
                    self.roots.update(
                        index as int,
                        RootConfig { position, color: self.roots[index as int].color },
                    ),
                )
            } else {
                self
            },
            ConfigChangeEvent::RootColor { index, color } => if index < self.roots.len() {
                self.with_roots(
                    self.roots.update(
                        index as int,
                        RootConfig { position: self.roots[index as int].position, color },
                    ),
                )
            } else {
                self
            },
            ConfigChangeEvent::CameraPosition(p) => ConfigView {
                num_iterations: self.num_iterations,
                roots: self.roots,
                camera: CameraConfig { position: p, zoom: self.camera.zoom },
            },
            ConfigChangeEvent::CameraZoom(z) => ConfigView {
                num_iterations: self.num_iterations,
                roots: self.roots,
                camera: CameraConfig { position: self.camera.position, zoom: z },
            },
        }
    }
}

/// Adding a root and then removing the root at the last index gives back
/// the configuration as it was, whenever there was room to add one.
pub proof fn lemma_add_then_remove_last(c: ConfigView)
    requires
        c.roots.len() + 1 < MAX_ROOTS,
    ensures
        c.after(ConfigChangeEvent::AddRoot).after(
            ConfigChangeEvent::RemoveRoot { index: c.roots.len() as usize },
        ) == c,
{
    let added = c.after(ConfigChangeEvent::AddRoot);
    assert(added.roots.remove(c.roots.len() as int) =~= c.roots);
}

/// Setting the position of the root at a valid index changes that root's
/// position and nothing else.
pub proof fn lemma_set_position_changes_only_position(c: ConfigView, k: usize, p: Complex)
    requires
        k < c.roots.len(),
    ensures
        ({
            let d = c.after(ConfigChangeEvent::RootPosition { index: k, position: p });
            &&& d.num_iterations == c.num_iterations
            &&& d.camera == c.camera
            &&& d.roots.len() == c.roots.len()
            &&& d.roots[k as int].position == p
            &&& d.roots[k as int].color == c.roots[k as int].color
            &&& forall|j: int| 0 <= j < c.roots.len() && j != k ==> d.roots[j] == c.roots[j]
        }),
{
}

/// Setting the position or the color of a root at an index past the end
/// leaves the configuration unchanged.
pub proof fn lemma_out_of_range_edit_is_ignored(c: ConfigView, k: usize, p: Complex, col: Rgba)
    requires
        k >= c.roots.len(),
    ensures
        c.after(ConfigChangeEvent::RootPosition { index: k, position: p }) == c,
        c.after(ConfigChangeEvent::RootColor { index: k, color: col }) == c,
{
}

/// Every event keeps a well-formed configuration well-formed.
pub proof fn lemma_after_preserves_wf(c: ConfigView, event: ConfigChangeEvent)
    requires
        c.wf(),
    ensures
        c.after(event).wf(),
{
}

impl Complex {
    /// The complex number `0 + 0i`.
    pub fn zero() -> (r: Complex)
        ensures
            r == complex_zero(),
    {
        Complex { re: ZERO_BITS, im: ZERO_BITS }
    }
}

impl Default for RootConfig {
    /// A root at the origin, opaque black.
    fn default() -> (r: RootConfig)
        ensures
            r == default_root(),
    {
        RootConfig {
            position: Complex::zero(),
            color: Rgba { r: ZERO_BITS, g: ZERO_BITS, b: ZERO_BITS, a: ONE_BITS },
        }
    }
}

impl Default for CameraConfig {
    /// The camera centred on the origin with zoom `1.0`.
    fn default() -> (r: CameraConfig)
        ensures
            r == default_camera(),
    {
        CameraConfig { position: Complex::zero(), zoom: ONE_BITS }
    }
}

impl Default for Config {
    /// Thirty iterations, the two default roots and the default camera.
    fn default() -> (r: Config)
        ensures
            r.num_iterations == 30,
            r.roots@ == default_roots(),
            r.camera == default_camera(),
    {
        let roots = vec![
            RootConfig {
                position: Complex { re: HALF_BITS, im: ZERO_BITS },
                color: Rgba { r: ZERO_BITS, g: THREE_QUARTERS_BITS, b: ZERO_BITS, a: ONE_BITS },
            },
            RootConfig {
                position: Complex { re: NEG_HALF_BITS, im: ZERO_BITS },
                color: Rgba { r: ZERO_BITS, g: ZERO_BITS, b: ONE_BITS, a: ZERO_BITS },
            },
        ];
        assert(roots@ =~= default_roots());
        Config { num_iterations: 30, roots, camera: CameraConfig::default() }
    }
}

/// The iteration count that an integer typed into the editor asks for:
/// a negative entry counts as zero.
pub fn iterations_from_input(v: i32) -> (r: u32)
    ensures
        r == (if v < 0 { 0 } else { v as u32 }),
{
    if v < 0 {
        0
    } else {
        v as u32
    }
}

impl Config {
    /// Applies one change. Out-of-range indices are ignored, for removal as
    /// for edits, and a root is added only while the configuration keeps
    /// room for its coefficients; such events leave `self` unchanged.
    pub fn apply(&mut self, event: &ConfigChangeEvent)
        ensures
            final(self)@ == old(self)@.after(*event),
    {
        match *event {
            ConfigChangeEvent::NumIterations(v) => {
                self.num_iterations = v;
            },
            ConfigChangeEvent::AddRoot => {
                if self.roots.len() < MAX_ROOTS - 1 {
                    self.roots.push(RootConfig::default());
                }
            },
            ConfigChangeEvent::RemoveRoot { index } => {
                if index < self.roots.len() {
                    self.roots.remove(index);
                }
            },
            ConfigChangeEvent::RootPosition { index, position } => {
                if index < self.roots.len() {
                    let color = self.roots[index].color;
                    self.roots.set(index, RootConfig { position, color });
                }
            },
            ConfigChangeEvent::RootColor { index, color } => {
                if index < self.roots.len() {
                    let position = self.roots[index].position;
                    self.roots.set(index, RootConfig { position, color });
                }
            },
            ConfigChangeEvent::CameraPosition(v) => {
                self.camera.position = v;
            },
            ConfigChangeEvent::CameraZoom(v) => {
                self.camera.zoom = v;
            },
        }
    }
}

} // verus!
