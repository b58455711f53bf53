use vstd::prelude::*;
use vstd::string::*;
use crate::shapes::{Color, Point, Shape, Square};

verus! {

/// The character of decimal digit `d`.
pub open spec fn digit_char(d: int) -> char {
    ((48 + d) as u8) as char
}

/// Decimal digits of `n`, most significant first, without leading zeros.
pub open spec fn nat_text(n: nat) -> Seq<char>
    decreases n,
{
    if n < 10 {
        seq![digit_char(n as int)]
    } else {
        nat_text(n / 10) + seq![digit_char((n % 10) as int)]
    }
}

/// A fixed-point value in thousandths written as a decimal literal with three
/// fractional digits: `-1500` is `-1.500`.
#[verifier::opaque]
pub open spec fn fixed_text(v: int) -> Seq<char> {
    let m = if v < 0 {
        -v
    } else {
        v
    };
    (if v < 0 {
        seq!['-']
    } else {
        Seq::<char>::empty()
    }) + nat_text((m / 1000) as nat) + seq![
        '.',
        digit_char(m / 100 % 10),
        digit_char(m / 10 % 10),
        digit_char(m % 10),
    ]
}

fn digit_str(d: u64) -> (r: &'static str)
    requires
        d < 10,
    ensures
        r@ == seq![digit_char(d as int)],
{
    proof {
        reveal_strlit("0");
        reveal_strlit("1");
        reveal_strlit("2");
        reveal_strlit("3");
        reveal_strlit("4");
        reveal_strlit("5");
        reveal_strlit("6");
        reveal_strlit("7");
        reveal_strlit("8");
        reveal_strlit("9");
    }
    if d == 0 {
        "0"
    } else if d == 1 {
        "1"
    } else if d == 2 {
        "2"
    } else if d == 3 {
        "3"
    } else if d == 4 {
        "4"
    } else if d == 5 {
        "5"
    } else if d == 6 {
        "6"
    } else if d == 7 {
        "7"
    } else if d == 8 {
        "8"
    } else {
        "9"
    }
}

fn write_nat(out: &mut String, n: u64)
    ensures
        final(out)@ == old(out)@ + nat_text(n as nat),
    decreases n,
{
    if n >= 10 {
        write_nat(out, n / 10);
    }
    out.append(digit_str(n % 10));
    proof {
        if n >= 10 {
            assert(out@ =~= old(out)@ + nat_text(n as nat));
        }
    }
}

/// Appends `v` as a decimal literal (see [`fixed_text`]).
fn write_fixed(out: &mut String, v: i64)
    ensures
        final(out)@ == old(out)@ + fixed_text(v as int),
{
    proof {
        reveal(fixed_text);
        reveal_strlit("-");
        reveal_strlit(".");
    }
    let m: u64 = if v < 0 {
        (-(v as i128)) as u64
    } else {
        v as u64
    };
    if v < 0 {
        out.append("-");
    }
    write_nat(out, m / 1000);
    out.append(".");
    out.append(digit_str(m / 100 % 10));
    out.append(digit_str(m / 10 % 10));
    out.append(digit_str(m % 10));
    assert(out@ =~= old(out)@ + fixed_text(v as int));
}

/// `vec2(a, b)` with both components as decimal literals.
#[verifier::opaque]
pub open spec fn vec2_text(a: int, b: int) -> Seq<char> {
    "vec2("@ + fixed_text(a) + ", "@ + fixed_text(b) + ")"@
}

fn write_vec2(out: &mut String, a: i64, b: i64)
    ensures
        final(out)@ == old(out)@ + vec2_text(a as int, b as int),
{
    proof {
        reveal(vec2_text);
    }
    out.append("vec2(");
    write_fixed(out, a);
    out.append(", ");
    write_fixed(out, b);
    out.append(")");
    assert(out@ =~= old(out)@ + vec2_text(a as int, b as int));
}

/// `vec4(r, g, b, 1.0)`: the colour with a unit weight channel.
#[verifier::opaque]
pub open spec fn color_text(c: Color) -> Seq<char> {
    "vec4("@ + fixed_text(c.r as int) + ", "@ + fixed_text(c.g as int) + ", "@ + fixed_text(
        c.b as int,
    ) + ", 1.0)"@
}

fn write_color(out: &mut String, c: Color)
    ensures
        final(out)@ == old(out)@ + color_text(c),
{
    proof {
        reveal(color_text);
    }
    out.append("vec4(");
    write_fixed(out, c.r);
    out.append(", ");
    write_fixed(out, c.g);
    out.append(", ");
    write_fixed(out, c.b);
    out.append(", 1.0)");
    assert(out@ =~= old(out)@ + color_text(c));
}

/// `rectangle(p, centre, size*0.5, radius)`: the rounded-box distance of `sq`.
#[verifier::opaque]
pub open spec fn rectangle_text(sq: Square) -> Seq<char> {
    "rectangle(p, "@ + vec2_text(sq.pos.x as int, sq.pos.y as int) + ", "@ + vec2_text(
        sq.size.x as int,
        sq.size.y as int,
    ) + "*0.5, "@ + fixed_text(sq.radius as int) + ")"@
}

fn write_rectangle(out: &mut String, sq: &Square)
    ensures
        final(out)@ == old(out)@ + rectangle_text(*sq),
{
    proof {
        reveal(rectangle_text);
    }
    out.append("rectangle(p, ");
    write_vec2(out, sq.pos.x, sq.pos.y);
    out.append(", ");
    write_vec2(out, sq.size.x, sq.size.y);
    out.append("*0.5, ");
    write_fixed(out, sq.radius);
    out.append(")");
    assert(out@ =~= old(out)@ + rectangle_text(*sq));
}

/// The colour-weight statements of one shape whose own distance is held in `dist`:
/// its weight, floored at 0.0001, and the weighted colour added to `dcol`, whose
/// fourth channel thereby gains exactly that weight.
#[verifier::opaque]
pub open spec fn weight_text(spread: i64, dist: Seq<char>, c: Color) -> Seq<char> {
    "    w = max(1.0 - (10.0 - 10.0 * "@ + fixed_text(spread as int) + ") * "@ + dist
        + ", 0.0001);\n"@ + "    dcol += "@ + color_text(c) + " * w;\n"@
}

fn write_weight(out: &mut String, spread: i64, dist: &str, c: Color)
    ensures
        final(out)@ == old(out)@ + weight_text(spread, dist@, c),
{
    proof {
        reveal(weight_text);
    }
    out.append("    w = max(1.0 - (10.0 - 10.0 * ");
    write_fixed(out, spread);
    out.append(") * ");
    out.append(dist);
    out.append(", 0.0001);\n");
    out.append("    dcol += ");
    write_color(out, c);
    out.append(" * w;\n");
    assert(out@ =~= old(out)@ + weight_text(spread, dist@, c));
}

/// The statements for the first shape: its distance seeds `d`.
pub open spec fn seed_text(sq: Square, spread: i64) -> Seq<char> {
    "    d = "@ + rectangle_text(sq) + ";\n"@ + weight_text(spread, "d"@, sq.color)
}

/// The sign applied to a later shape's distance: negative when it carves a cavity.
pub open spec fn sign_text(subtract: bool) -> Seq<char> {
    if subtract {
        "-1.0"@
    } else {
        "1.0"@
    }
}

/// The statements for a later shape: its own distance `d2` is smooth-combined into
/// `d` with softness `blob`, and its colour is weighted by `d2`.
pub open spec fn blend_text(sq: Square, blob: i64, spread: i64, subtract: bool) -> Seq<char> {
    "    d2 = "@ + rectangle_text(sq) + ";\n"@ + "    d = smin(d, "@ + sign_text(subtract)
        + " * d2, "@ + fixed_text(blob as int) + ");\n"@ + weight_text(spread, "d2"@, sq.color)
}

/// The statements for the shape at index `i`; a circle has none.
pub open spec fn shape_text(i: int, s: Shape) -> Seq<char> {
    match s {
        Shape::Square(sq, blob, spread, subtract) => if i == 0 {
            seed_text(sq, spread)
        } else {
            blend_text(sq, blob, spread, subtract)
        },
        Shape::Circle(..) => Seq::<char>::empty(),
    }
}

/// The statements for the first `n` shapes, in order.
pub open spec fn body_text(shapes: Seq<Shape>, n: nat) -> Seq<char>
    decreases n,
{
    if n == 0 {
        Seq::<char>::empty()
    } else {
        body_text(shapes, (n - 1) as nat) + shape_text(n - 1, shapes[n - 1])
    }
}

/// Whether the shader generator can draw `s`.
pub open spec fn renderable(s: Shape) -> bool {
    s is Square
}

/// Why no shader could be generated.
#[derive(Clone, Copy, Debug, PartialEq, Eq, Structural)]
pub enum ShaderError {
    /// The shape at this index is a circle, which has no distance primitive.
    UnsupportedShape(usize),
}

/// The variable that holds the own distance of the shape at index `i`.
pub open spec fn distance_name(i: int) -> Seq<char> {
    if i == 0 {
        "d"@
    } else {
        "d2"@
    }
}

proof fn lemma_body_prefix(shapes: Seq<Shape>, m: nat, n: nat)
    requires
        m <= n,
    ensures
        body_text(shapes, m).len() <= body_text(shapes, n).len(),
        body_text(shapes, n).subrange(0, body_text(shapes, m).len() as int) == body_text(shapes, m),
    decreases n - m,
{
    if m < n {
        lemma_body_prefix(shapes, m, (n - 1) as nat);
        let prev = body_text(shapes, (n - 1) as nat);
        let k = body_text(shapes, m).len() as int;
        assert(body_text(shapes, n).subrange(0, k) =~= prev.subrange(0, k));
    } else {
        assert(body_text(shapes, n).subrange(0, body_text(shapes, n).len() as int) =~= body_text(
            shapes,
            n,
        ));
    }
}

/// Every shape of a drawable list adds its own colour weight to `dcol`: the
/// statements of the whole list begin with those of the shapes before index `i`
/// followed by those of shape `i`, and the latter end with that shape's weight
/// statements (see [`weight_text`]), taken over `d` for the first shape and over
/// `d2` for the others. With at least one shape, `dcol.w` is therefore a sum of at
/// least one weight, each floored at 0.0001.
pub proof fn lemma_every_shape_weighted(shapes: Seq<Shape>, i: int)
    requires
        0 <= i < shapes.len(),
        forall|k: int| 0 <= k < shapes.len() ==> renderable(#[trigger] shapes[k]),
    ensures
        body_text(shapes, (i + 1) as nat).len() <= body_text(shapes, shapes.len()).len(),
        body_text(shapes, shapes.len()).subrange(0, body_text(shapes, (i + 1) as nat).len() as int)
            == body_text(shapes, i as nat) + shape_text(i, shapes[i]),
        match shapes[i] {
            Shape::Square(sq, _, spread, _) => exists|geometry: Seq<char>|
                shape_text(i, shapes[i]) == #[trigger] (geometry + weight_text(
                    spread,
                    distance_name(i),
                    sq.color,
                )),
            Shape::Circle(..) => false,
        },
{
    lemma_body_prefix(shapes, (i + 1) as nat, shapes.len());
    assert(renderable(shapes[i]));
    match shapes[i] {
        Shape::Square(sq, blob, spread, subtract) => {
            if i == 0 {
                let g = "    d = "@ + rectangle_text(sq) + ";\n"@;
                assert(shape_text(i, shapes[i]) == g + weight_text(spread, distance_name(i), sq.color));
            } else {
                let g = "    d2 = "@ + rectangle_text(sq) + ";\n"@ + "    d = smin(d, "@ + sign_text(
                    subtract,
                ) + " * d2, "@ + fixed_text(blob as int) + ");\n"@;
                assert(shape_text(i, shapes[i]) == g + weight_text(spread, distance_name(i), sq.color));
            }
        },
        Shape::Circle(..) => {},
    }
}

/// `x` limited to `[0, 1]`.
pub open spec fn clamp_unit(x: real) -> real {
    if x < 0real {
        0real
    } else if x > 1real {
        1real
    } else {
        x
    }
}

/// The smooth minimum that the generated fragment shader defines, in exact
/// arithmetic: `mix(a, b, h) - k*h*(1-h)` with `h = clamp(1/2 + (a-b)/(2k), 0, 1)`.
pub open spec fn smooth_min(a: real, b: real, k: real) -> real {
    let h = clamp_unit(1real / 2real + (a - b) / (2real * k));
    a * (1real - h) + b * h - k * h * (1real - h)
}

/// On two equal distances the smooth minimum sits a quarter of the softness below
/// them: `h` is one half, so `smooth_min(d, d, k) == d - k/4` for every `k != 0`.
pub proof fn lemma_smooth_min_equal(d: real, k: real)
    requires
        k != 0real,
    ensures
        smooth_min(d, d, k) == d - k / 4real,
{
    assert(d - d == 0real);
    assert(0real / (2real * k) == 0real) by (nonlinear_arith)
        requires
            k != 0real,
    ;
    let h = 1real / 2real;
    assert(h * 2real == 1real);
    assert(clamp_unit(h + 0real) == h);
    assert(d * (1real - h) + d * h - k * h * (1real - h) == d - k / 4real) by (nonlinear_arith)
        requires
            h * 2real == 1real,
    ;
}

/// Whether the shader generator can draw `s`.
pub fn supports(s: &Shape) -> (r: bool)
    ensures
        r == renderable(*s),
{
    match s {
        Shape::Square(..) => true,
        Shape::Circle(..) => false,
    }
}

fn write_seed(out: &mut String, sq: &Square, spread: i64)
    ensures
        final(out)@ == old(out)@ + seed_text(*sq, spread),
{
    out.append("    d = ");
    write_rectangle(out, sq);
    out.append(";\n");
    write_weight(out, spread, "d", sq.color);
    assert(out@ =~= old(out)@ + seed_text(*sq, spread));
}

fn write_blend(out: &mut String, sq: &Square, blob: i64, spread: i64, subtract: bool)
    ensures
        final(out)@ == old(out)@ + blend_text(*sq, blob, spread, subtract),
{
    out.append("    d2 = ");
    write_rectangle(out, sq);
    out.append(";\n");
    out.append("    d = smin(d, ");
    if subtract {
        out.append("-1.0");
    } else {
        out.append("1.0");
    }
    out.append(" * d2, ");
    write_fixed(out, blob);
    out.append(");\n");
    write_weight(out, spread, "d2", sq.color);
    assert(out@ =~= old(out)@ + blend_text(*sq, blob, spread, subtract));
}

fn write_shape(out: &mut String, i: usize, s: &Shape)
    ensures
        final(out)@ == old(out)@ + shape_text(i as int, *s),
{
    match s {
        Shape::Square(sq, blob, spread, subtract) => {
            if i == 0 {
                write_seed(out, sq, *spread);
            } else {
                write_blend(out, sq, *blob, *spread, *subtract);
            }
        },
        Shape::Circle(..) => {
            assert(out@ =~= old(out)@ + shape_text(i as int, *s));
        },
    }
}

/// The statements of the fragment shader's main function that accumulate the
/// distance `d` and the weighted colour `dcol` over `shapes`, in order. Fails on the
/// first shape that cannot be drawn.
pub fn fragment_body(shapes: &Vec<Shape>) -> (r: Result<String, ShaderError>)
    ensures
        match r {
            Ok(t) => (forall|i: int| 0 <= i < shapes@.len() ==> renderable(#[trigger] shapes@[i]))
                && t@ == body_text(shapes@, shapes@.len()),
            Err(ShaderError::UnsupportedShape(j)) => j < shapes@.len() && !renderable(shapes@[j as int])
                && forall|i: int| 0 <= i < j ==> renderable(#[trigger] shapes@[i]),
        },
{
    let mut out = String::new();
    let mut i: usize = 0;
    while i < shapes.len()
        invariant
            0 <= i <= shapes@.len(),
            out@ == body_text(shapes@, i as nat),
            forall|k: int| 0 <= k < i ==> renderable(#[trigger] shapes@[k]),
        decreases shapes@.len() - i,
    {
        if !supports(&shapes[i]) {
            return Err(ShaderError::UnsupportedShape(i));
        }
        write_shape(&mut out, i, &shapes[i]);
        i += 1;
    }
    Ok(out)
}

/// Which shading-language dialect to target.
#[derive(Clone, Copy, Debug, PartialEq, Eq, Structural)]
pub enum ShaderProfile {
    /// OpenGL ES 3.0, for the web.
    Web,
    /// Desktop OpenGL 3.3.
    Desktop,
}

/// The version directive that opens every shader for `profile`.
pub open spec fn version_text(profile: ShaderProfile) -> Seq<char> {
    match profile {
        ShaderProfile::Web => "#version 300 es\n"@,
        ShaderProfile::Desktop => "#version 330\n"@,
    }
}

fn write_version(out: &mut String, profile: ShaderProfile)
    ensures
        final(out)@ == old(out)@ + version_text(profile),
{
    match profile {
        ShaderProfile::Web => out.append("#version 300 es\n"),
        ShaderProfile::Desktop => out.append("#version 330\n"),
    }
}

/// Vertex stage: two triangles covering the whole viewport, looked up by vertex index.
pub const VERTEX_MAIN: &'static str = "const vec2 verts[6] = vec2[6](
    vec2(-1.0, -1.0),
    vec2(1.0, -1.0),
    vec2(1.0, 1.0),
    vec2(-1.0, -1.0),
    vec2(-1.0, 1.0),
    vec2(1.0, 1.0)
);

void main() {
    gl_Position = vec4(verts[gl_VertexID], 0.0, 1.0);
}
";

/// Fragment stage declarations up to the normalisation scale's value.
pub const FRAGMENT_HEAD: &'static str = "precision mediump float;
out vec4 out_color;

layout(origin_upper_left) in vec4 gl_FragCoord;

float smin(float a, float b, float k) {
    float h = clamp(0.5 + 0.5 * (a - b) / k, 0.0, 1.0);
    return mix(a, b, h) - k * h * (1.0 - h);
}

const float min_dim = ";

/// The rounded-box distance primitive and the start of `main`, up to the canvas
/// origin's horizontal coordinate.
pub const FRAGMENT_PRIMITIVES: &'static str = ";

float rectangle(vec2 samplePosition, vec2 position, vec2 halfSize, float radius) {
    float r = radius * min(halfSize.x, halfSize.y) / min_dim;
    vec2 edge = abs(samplePosition - position / min_dim) - halfSize / min_dim + vec2(r, r);
    float outsideDistance = length(max(edge, 0.0));
    float insideDistance = min(max(edge.x, edge.y), 0.0);
    return outsideDistance + insideDistance - r;
}

void main() {
    vec2 p = vec2(gl_FragCoord.x - ";

/// Between the canvas origin's two coordinates.
pub const FRAGMENT_ORIGIN_Y: &'static str = ", gl_FragCoord.y - ";

/// The accumulators, primed before the first shape.
pub const FRAGMENT_PRIME: &'static str = ") / min_dim;
    vec3 col = vec3(0.0, 0.0, 0.0);
    vec4 dcol = vec4(0.0, 0.0, 0.0, 0.0);
    float d2;
    float w;
    float d = 1.0;
";

/// Colour normalisation and the anti-aliased blend over the black background.
pub const FRAGMENT_TAIL: &'static str = "    dcol.xyz /= dcol.w;
    col = mix(col, dcol.xyz, 1.0 - smoothstep(0.0, 0.01, d * 10.0));
    out_color = vec4(col, 1.0);
}
";

/// The complete vertex shader for `profile`.
pub open spec fn vertex_text(profile: ShaderProfile) -> Seq<char> {
    version_text(profile) + VERTEX_MAIN@
}

/// The complete fragment shader for `profile` around the statements `body`, with
/// canvas coordinates normalised by `min_dim` after subtracting `origin`.
pub open spec fn fragment_text(
    profile: ShaderProfile,
    min_dim: i64,
    origin: Point,
    body: Seq<char>,
) -> Seq<char> {
    version_text(profile) + FRAGMENT_HEAD@ + fixed_text(min_dim as int) + FRAGMENT_PRIMITIVES@
        + fixed_text(origin.x as int) + FRAGMENT_ORIGIN_Y@ + fixed_text(origin.y as int)
        + FRAGMENT_PRIME@ + body + FRAGMENT_TAIL@
}

/// The vertex shader: a full-viewport quad.
pub fn vertex_shader(profile: ShaderProfile) -> (r: String)
    ensures
        r@ == vertex_text(profile),
{
    let mut out = String::new();
    write_version(&mut out, profile);
    out.append(VERTEX_MAIN);
    assert(out@ =~= vertex_text(profile));
    out
}

/// The fragment shader that draws `shapes` blended by smooth minimum, on a canvas
/// whose top-left corner is at `origin` and whose smaller side is `min_dim`. Fails on
/// the first shape that cannot be drawn.
pub fn fragment_shader(profile: ShaderProfile, shapes: &Vec<Shape>, min_dim: i64, origin: Point) -> (r:
    Result<String, ShaderError>)
    ensures
        match r {
            Ok(t) => (forall|i: int| 0 <= i < shapes@.len() ==> renderable(#[trigger] shapes@[i]))
                && t@ == fragment_text(profile, min_dim, origin, body_text(shapes@, shapes@.len())),
            Err(ShaderError::UnsupportedShape(j)) => j < shapes@.len() && !renderable(shapes@[j as int])
                && forall|i: int| 0 <= i < j ==> renderable(#[trigger] shapes@[i]),
        },
{
    let body = match fragment_body(shapes) {
        Ok(b) => b,
        Err(e) => {
            return Err(e);
        },
    };
    let mut out = String::new();
    write_version(&mut out, profile);
    out.append(FRAGMENT_HEAD);
    write_fixed(&mut out, min_dim);
    out.append(FRAGMENT_PRIMITIVES);
    write_fixed(&mut out, origin.x);
    out.append(FRAGMENT_ORIGIN_Y);
    write_fixed(&mut out, origin.y);
    out.append(FRAGMENT_PRIME);
    out.append(body.as_str());
    out.append(FRAGMENT_TAIL);
    assert(out@ =~= fragment_text(profile, min_dim, origin, body@));
    Ok(out)
}

} // verus!
