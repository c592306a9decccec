use vstd::prelude::*;

use crate::config::{
    Complex, Config, ConfigView, RootConfig, Rgba, MAX_ROOTS, NEG_ONE_BITS, ONE_BITS, ZERO_BITS,
};

verus! {

/// Number of coefficient slots: a polynomial of degree below `MAX_ROOTS`
/// has at most this many coefficients.
pub const MAX_COEFFICIENTS: usize = MAX_ROOTS + 1;

/// Size in bytes of one encoded root slot.
pub const ROOT_ABI_SIZE: usize = 32;

/// Size in bytes of the encoded parameter block.
pub const PARAMS_SIZE: usize = 440;

/// One root slot as the evaluator reads it.
#[derive(Clone, Copy, Debug, PartialEq, Eq, Structural)]
pub struct RootAbi {
    pub color: Rgba,
    pub position: Complex,
}

/// The parameter block handed to the per-pixel evaluator, field by field.
/// `roots` has `MAX_ROOTS` slots and `coefficients` has `MAX_COEFFICIENTS`.
#[derive(Debug)]
pub struct ParamsAbi {
    pub num_iterations: u32,
    pub viewport_min: Complex,
    pub viewport_max: Complex,
    pub num_roots: u32,
    pub roots: Vec<RootAbi>,
    pub coefficients: Vec<Complex>,
}

/// The mathematical value of a [`ParamsAbi`].
pub struct ParamsView {
    pub num_iterations: u32,
    pub viewport_min: Complex,
    pub viewport_max: Complex,
    pub num_roots: u32,
    pub roots: Seq<RootAbi>,
    pub coefficients: Seq<Complex>,
}

impl View for ParamsAbi {
    type V = ParamsView;

    open spec fn view(&self) -> ParamsView {
        ParamsView {
            num_iterations: self.num_iterations,
            viewport_min: self.viewport_min,
            viewport_max: self.viewport_max,
            num_roots: self.num_roots,
            roots: self.roots@,
            coefficients: self.coefficients@,
        }
    }
}

/// `n` zero bytes.
pub open spec fn zero_bytes(n: nat) -> Seq<u8> {
    Seq::new(n, |i: int| 0u8)
}

/// The four little-endian bytes of `x`.
pub open spec fn u32_bytes(x: u32) -> Seq<u8> {
    seq![
        (x % 0x100) as u8,
        (x / 0x100 % 0x100) as u8,
        (x / 0x1_0000 % 0x100) as u8,
        (x / 0x100_0000) as u8,
    ]
}

/// Real part, then imaginary part.
pub open spec fn complex_bytes(c: Complex) -> Seq<u8> {
    u32_bytes(c.re) + u32_bytes(c.im)
}

/// Red, green, blue, alpha.
pub open spec fn rgba_bytes(c: Rgba) -> Seq<u8> {
    u32_bytes(c.r) + u32_bytes(c.g) + u32_bytes(c.b) + u32_bytes(c.a)
}

/// Color, position, then eight bytes of padding.
pub open spec fn root_abi_bytes(r: RootAbi) -> Seq<u8> {
    rgba_bytes(r.color) + complex_bytes(r.position) + zero_bytes(8)
}

/// The root slots one after the other.
pub open spec fn roots_bytes(s: Seq<RootAbi>) -> Seq<u8>
    decreases s.len(),
{
    if s.len() == 0 {
        Seq::empty()
    } else {
        roots_bytes(s.drop_last()) + root_abi_bytes(s.last())
    }
}

/// The coefficients one after the other.
pub open spec fn coefficients_bytes(s: Seq<Complex>) -> Seq<u8>
    decreases s.len(),
{
    if s.len() == 0 {
        Seq::empty()
    } else {
        coefficients_bytes(s.drop_last()) + complex_bytes(s.last())
    }
}

/// An empty root slot: every byte zero.
pub open spec fn empty_root_slot() -> RootAbi {
    RootAbi {
        color: Rgba { r: ZERO_BITS, g: ZERO_BITS, b: ZERO_BITS, a: ZERO_BITS },
        position: Complex { re: ZERO_BITS, im: ZERO_BITS },
    }
}

/// The `MAX_ROOTS` root slots: the given roots first, empty slots after.
pub open spec fn root_slots(roots: Seq<RootConfig>) -> Seq<RootAbi> {
    Seq::new(
        MAX_ROOTS as nat,
        |i: int|
            if i < roots.len() {
                RootAbi { color: roots[i].color, position: roots[i].position }
            } else {
                empty_root_slot()
            },
    )
}

/// The parameter block for a configuration and its polynomial's
/// coefficients. The viewport is fixed to the square from `(-1, 1)` to
/// `(1, -1)`; the camera is not part of it.
pub open spec fn params_of(c: ConfigView, coefficients: Seq<Complex>) -> ParamsView {
    ParamsView {
        num_iterations: c.num_iterations,
        viewport_min: Complex { re: NEG_ONE_BITS, im: ONE_BITS },
        viewport_max: Complex { re: ONE_BITS, im: NEG_ONE_BITS },
        num_roots: c.roots.len() as u32,
        roots: root_slots(c.roots),
        coefficients,
    }
}

impl ParamsView {
    /// The byte layout shared with the evaluator: iteration count, four
    /// bytes of padding, viewport corners, root count, four bytes of
    /// padding, root slots, coefficients.
    pub open spec fn bytes(self) -> Seq<u8> {
        u32_bytes(self.num_iterations) + zero_bytes(4) + complex_bytes(self.viewport_min)
            + complex_bytes(self.viewport_max) + u32_bytes(self.num_roots) + zero_bytes(4)
            + roots_bytes(self.roots) + coefficients_bytes(self.coefficients)
    }
}

proof fn lemma_roots_bytes_len(s: Seq<RootAbi>)
    ensures
        roots_bytes(s).len() == ROOT_ABI_SIZE * s.len(),
    decreases s.len(),
{
    if s.len() > 0 {
        lemma_roots_bytes_len(s.drop_last());
    }
}

proof fn lemma_coefficients_bytes_len(s: Seq<Complex>)
    ensures
        coefficients_bytes(s).len() == 8 * s.len(),
    decreases s.len(),
{
    if s.len() > 0 {
        lemma_coefficients_bytes_len(s.drop_last());
    }
}

/// The block of a configuration with room for its coefficients, encoded
/// with a full set of coefficients, always takes `PARAMS_SIZE` bytes.
pub proof fn lemma_params_size(c: ConfigView, coefficients: Seq<Complex>)
    requires
        c.wf(),
        coefficients.len() == MAX_COEFFICIENTS,
    ensures
        params_of(c, coefficients).bytes().len() == PARAMS_SIZE,
{
    lemma_roots_bytes_len(root_slots(c.roots));
    lemma_coefficients_bytes_len(coefficients);
}

/// Encoding the same configuration with the same coefficients twice gives
/// the same bytes.
pub proof fn lemma_encoding_deterministic(
    a: ConfigView,
    b: ConfigView,
    ca: Seq<Complex>,
    cb: Seq<Complex>,
)
    requires
        a == b,
        ca == cb,
    ensures
        params_of(a, ca).bytes() == params_of(b, cb).bytes(),
{
}

fn push_u32(out: &mut Vec<u8>, x: u32)
    ensures
        final(out)@ == old(out)@ + u32_bytes(x),
{
    out.push((x % 0x100) as u8);
    out.push((x / 0x100 % 0x100) as u8);
    out.push((x / 0x1_0000 % 0x100) as u8);
    out.push((x / 0x100_0000) as u8);
    assert(final(out)@ =~= old(out)@ + u32_bytes(x));
}

fn push_zeros(out: &mut Vec<u8>, n: usize)
    ensures
        final(out)@ == old(out)@ + zero_bytes(n as nat),
{
    let mut i: usize = 0;
    while i < n
        invariant
            i <= n,
            out@ == old(out)@ + zero_bytes(i as nat),
        decreases n - i,
    {
        out.push(0u8);
        i = i + 1;
        assert(out@ =~= old(out)@ + zero_bytes(i as nat));
    }
}

fn push_complex(out: &mut Vec<u8>, c: Complex)
    ensures
        final(out)@ == old(out)@ + complex_bytes(c),
{
    push_u32(out, c.re);
    push_u32(out, c.im);
    assert(final(out)@ =~= old(out)@ + complex_bytes(c));
}

fn push_root_abi(out: &mut Vec<u8>, r: RootAbi)
    ensures
        final(out)@ == old(out)@ + root_abi_bytes(r),
{
    push_u32(out, r.color.r);
    push_u32(out, r.color.g);
    push_u32(out, r.color.b);
    push_u32(out, r.color.a);
    push_complex(out, r.position);
    push_zeros(out, 8);
    assert(final(out)@ =~= old(out)@ + root_abi_bytes(r));
}

impl ParamsAbi {
    /// Lays out a configuration and the coefficients of its polynomial
    /// (lowest degree first) as the evaluator reads them.
    pub fn new(config: &Config, coefficients: &Vec<Complex>) -> (r: ParamsAbi)
        requires
            config@.wf(),
            coefficients@.len() == MAX_COEFFICIENTS,
        ensures
            r@ == params_of(config@, coefficients@),
    {
        let mut roots: Vec<RootAbi> = Vec::new();
        let mut i: usize = 0;
        while i < MAX_ROOTS
            invariant
                i <= MAX_ROOTS,
                config@.wf(),
                roots@ =~= root_slots(config@.roots).subrange(0, i as int),
            decreases MAX_ROOTS - i,
        {
            if i < config.roots.len() {
                let root = config.roots[i];
                roots.push(RootAbi { color: root.color, position: root.position });
            } else {
                roots.push(
                    RootAbi {
                        color: Rgba { r: ZERO_BITS, g: ZERO_BITS, b: ZERO_BITS, a: ZERO_BITS },
                        position: Complex::zero(),
                    },
                );
            }
            i = i + 1;
        }
        assert(roots@ =~= root_slots(config@.roots));
        let mut copied: Vec<Complex> = Vec::new();
        let mut k: usize = 0;
        while k < coefficients.len()
            invariant
                k <= coefficients@.len(),
                copied@ =~= coefficients@.subrange(0, k as int),
            decreases coefficients@.len() - k,
        {
            copied.push(coefficients[k]);
            k = k + 1;
        }
        assert(copied@ =~= coefficients@);
        ParamsAbi {
            num_iterations: config.num_iterations,
            viewport_min: Complex { re: NEG_ONE_BITS, im: ONE_BITS },
            viewport_max: Complex { re: ONE_BITS, im: NEG_ONE_BITS },
            num_roots: config.roots.len() as u32,
            roots,
            coefficients: copied,
        }
    }

    /// The bytes of this block, field by field, in the layout that
    /// [`ParamsView::bytes`] gives.
    pub fn to_bytes(&self) -> (r: Vec<u8>)
        ensures
            r@ == self@.bytes(),
    {
        let mut out: Vec<u8> = Vec::new();
        push_u32(&mut out, self.num_iterations);
        push_zeros(&mut out, 4);
        push_complex(&mut out, self.viewport_min);
        push_complex(&mut out, self.viewport_max);
        push_u32(&mut out, self.num_roots);
        push_zeros(&mut out, 4);
        let ghost header = out@;
        let mut i: usize = 0;
        while i < self.roots.len()
            invariant
                i <= self.roots@.len(),
                out@ == header + roots_bytes(self.roots@.subrange(0, i as int)),
            decreases self.roots@.len() - i,
        {
            push_root_abi(&mut out, self.roots[i]);
            proof {
                let s = self.roots@.subrange(0, i + 1);
                assert(s.drop_last() =~= self.roots@.subrange(0, i as int));
                assert(out@ =~= header + roots_bytes(s));
            }
            i = i + 1;
        }
        assert(self.roots@.subrange(0, self.roots@.len() as int) =~= self.roots@);
        let ghost middle = out@;
        let mut k: usize = 0;
        while k < self.coefficients.len()
            invariant
                k <= self.coefficients@.len(),
                out@ == middle + coefficients_bytes(self.coefficients@.subrange(0, k as int)),
            decreases self.coefficients@.len() - k,
        {
            push_complex(&mut out, self.coefficients[k]);
            proof {
                let s = self.coefficients@.subrange(0, k + 1);
                assert(s.drop_last() =~= self.coefficients@.subrange(0, k as int));
                assert(out@ =~= middle + coefficients_bytes(s));
            }
            k = k + 1;
        }
        assert(self.coefficients@.subrange(0, self.coefficients@.len() as int)
            =~= self.coefficients@);
        assert(out@ =~= self@.bytes());
        out
    }
}

/// Encodes a configuration and the coefficients of its polynomial (lowest
/// degree first) into the `PARAMS_SIZE` bytes that the evaluator reads.
pub fn encode_params(config: &Config, coefficients: &Vec<Complex>) -> (r: Vec<u8>)
    requires
        config@.wf(),
        coefficients@.len() == MAX_COEFFICIENTS,
    ensures
        r@ == params_of(config@, coefficients@).bytes(),
        r@.len() == PARAMS_SIZE,
{
    let params = ParamsAbi::new(config, coefficients);
    proof {
        lemma_params_size(config@, coefficients@);
    }
    params.to_bytes()
}

} // verus!
