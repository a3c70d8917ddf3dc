//! Building a complete fragment-shader program text around a user fragment.
use vstd::prelude::*;
use vstd::string::*;
use crate::text::{count_occurrences, contains_piece, lacks, lacks_pair, lemma_count_concat,
    lemma_count_leading_pattern, lemma_count_missing_pair};

verus! {

/// Fragment drawn when nothing was submitted before a session starts: a
/// colour gradient over the viewport that shifts with time.
pub const DEFAULT_FRAGMENT: &'static str = "void render_image(out vec4 color, in vec2 coord) {
    vec2 uv = coord / u_resolution.xy;
    color = vec4(0.5 + 0.5 * cos(u_time + uv.xyx + vec3(0.0, 2.0, 4.0)), 1.0);
}
";

/// Version and precision directives that open every program text.
pub open spec fn header() -> Seq<char> {
    "#version 300 es \n"@ + "precision mediump float;\n\n"@
}

/// The three standard uniforms: resolution (width, height, pixel aspect ratio),
/// elapsed time in seconds and frame counter.
pub open spec fn uniform_declarations() -> Seq<char> {
    "uniform vec3 u_resolution; // image/buffer\tThe viewport resolution (z is pixel aspect ratio, usually 1.0)\n"@
        + "uniform float\tu_time; // image/sound/buffer\tCurrent time in seconds\n"@
        + "uniform int\tu_frame; // image/buffer\tCurrent frame\n"@
}

/// Text placed before the user fragment.
pub open spec fn preamble() -> Seq<char> {
    header() + uniform_declarations()
}

/// Entry point placed after the user fragment: it calls the fragment's
/// `render_image` with the pixel position scaled by the viewport size.
pub open spec fn entry_point() -> Seq<char> {
    "\nin vec2 vUv;\n"@ + "out vec4 frag_color;\n\n"@ + "void main() {\n"@
        + "    render_image(frag_color, vUv * u_resolution.xy);\n"@ + "}"@
}

/// The complete program text for a raw fragment.
pub open spec fn assembled(raw: Seq<char>) -> Seq<char> {
    preamble() + raw + entry_point()
}

/// Wraps a raw fragment into a complete program text: the preamble with the
/// standard uniforms, the fragment verbatim, then the entry point.
pub fn prepare_shader(shadertoy_code: &str) -> (r: String)
    ensures
        r@ == assembled(shadertoy_code@),
{
    let mut s = String::from_str("#version 300 es \n");
    s.append("precision mediump float;\n\n");
    s.append("uniform vec3 u_resolution; // image/buffer\tThe viewport resolution (z is pixel aspect ratio, usually 1.0)\n");
    s.append("uniform float\tu_time; // image/sound/buffer\tCurrent time in seconds\n");
    s.append("uniform int\tu_frame; // image/buffer\tCurrent frame\n");
    s.append(shadertoy_code);
    s.append("\nin vec2 vUv;\n");
    s.append("out vec4 frag_color;\n\n");
    s.append("void main() {\n");
    s.append("    render_image(frag_color, vUv * u_resolution.xy);\n");
    s.append("}");
    proof {
        assert(s@ =~= assembled(shadertoy_code@));
    }
    s
}

/// What marks a uniform declaration.
pub open spec fn uniform_keyword() -> Seq<char> {
    "uniform "@
}

/// What marks the definition of the entry point.
pub open spec fn entry_signature() -> Seq<char> {
    "void main("@
}

// For each piece of the fixed text: a pair of adjacent characters of each
// marker that never stands in it, proved one piece at a time.
proof fn lemma_pairs_h1()
    ensures
        lacks_pair("#version 300 es \n"@, 'u', 'n'),
        lacks_pair("#version 300 es \n"@, 'v', 'o'),
{
    reveal_strlit("#version 300 es \n");
    reveal_with_fuel(lacks_pair, 19);
}

proof fn lemma_pairs_h2()
    ensures
        lacks_pair("precision mediump float;\n\n"@, 'u', 'n'),
        lacks_pair("precision mediump float;\n\n"@, 'v', 'o'),
{
    reveal_strlit("precision mediump float;\n\n");
    reveal_with_fuel(lacks_pair, 28);
}

proof fn lemma_pairs_d3()
    ensures
        lacks_pair("uniform int\tu_frame; // image/buffer\tCurrent frame\n"@, 'v', 'o'),
{
    reveal_strlit("uniform int\tu_frame; // image/buffer\tCurrent frame\n");
    reveal_with_fuel(lacks_pair, 53);
}

proof fn lemma_pairs_d1a()
    ensures
        lacks_pair("uniform vec3 u_resolution; // image/buffer\t"@, 'v', 'o'),
{
    reveal_strlit("uniform vec3 u_resolution; // image/buffer\t");
    reveal_with_fuel(lacks_pair, 45);
}

proof fn lemma_pairs_d2a()
    ensures
        lacks_pair("uniform float\tu_time; // image/sound/buffer\t"@, 'v', 'o'),
{
    reveal_strlit("uniform float\tu_time; // image/sound/buffer\t");
    reveal_with_fuel(lacks_pair, 46);
}

proof fn lemma_pairs_d3r()
    ensures
        lacks_pair("int\tu_frame; // image/buffer\tCurrent frame\n"@, 'u', 'n'),
{
    reveal_strlit("int\tu_frame; // image/buffer\tCurrent frame\n");
    reveal_with_fuel(lacks_pair, 45);
}

proof fn lemma_pairs_c11()
    ensures
        lacks_pair("vec3 u_resolution; // image/buffer\t"@, 'u', 'n'),
{
    reveal_strlit("vec3 u_resolution; // image/buffer\t");
    reveal_with_fuel(lacks_pair, 37);
}

proof fn lemma_pairs_c12()
    ensures
        lacks_pair("The viewport resolution (z"@, 'u', 'n'),
        lacks_pair("The viewport resolution (z"@, 'v', 'o'),
{
    reveal_strlit("The viewport resolution (z");
    reveal_with_fuel(lacks_pair, 28);
}

proof fn lemma_pairs_c13()
    ensures
        lacks_pair(" is pixel aspect ratio, usually 1.0)\n"@, 'u', 'n'),
        lacks_pair(" is pixel aspect ratio, usually 1.0)\n"@, 'v', 'o'),
{
    reveal_strlit(" is pixel aspect ratio, usually 1.0)\n");
    reveal_with_fuel(lacks_pair, 39);
}

proof fn lemma_pairs_c21()
    ensures
        lacks_pair("float\tu_time; // image/sound/buffer\t"@, 'n', 'i'),
{
    reveal_strlit("float\tu_time; // image/sound/buffer\t");
    reveal_with_fuel(lacks_pair, 38);
}

proof fn lemma_pairs_c22()
    ensures
        lacks_pair("Current time in seconds\n"@, 'n', 'i'),
        lacks_pair("Current time in seconds\n"@, 'v', 'o'),
{
    reveal_strlit("Current time in seconds\n");
    reveal_with_fuel(lacks_pair, 26);
}

proof fn lemma_pairs_e1()
    ensures
        lacks_pair("\nin vec2 vUv;\n"@, 'u', 'n'),
        lacks_pair("\nin vec2 vUv;\n"@, 'v', 'o'),
{
    reveal_strlit("\nin vec2 vUv;\n");
    reveal_with_fuel(lacks_pair, 16);
}

proof fn lemma_pairs_e2()
    ensures
        lacks_pair("out vec4 frag_color;\n\n"@, 'u', 'n'),
        lacks_pair("out vec4 frag_color;\n\n"@, 'v', 'o'),
{
    reveal_strlit("out vec4 frag_color;\n\n");
    reveal_with_fuel(lacks_pair, 24);
}

proof fn lemma_pairs_e3()
    ensures
        lacks_pair("void main() {\n"@, 'u', 'n'),
{
    reveal_strlit("void main() {\n");
    reveal_with_fuel(lacks_pair, 16);
}

proof fn lemma_pairs_e3r()
    ensures
        lacks_pair(") {\n"@, 'v', 'o'),
{
    reveal_strlit(") {\n");
    reveal_with_fuel(lacks_pair, 6);
}

proof fn lemma_pairs_e4a()
    ensures
        lacks_pair("    render_image("@, 'u', 'n'),
        lacks_pair("    render_image("@, 'v', 'o'),
{
    reveal_strlit("    render_image(");
    reveal_with_fuel(lacks_pair, 19);
}

proof fn lemma_pairs_e4b()
    ensures
        lacks_pair("frag_color, vUv * u_resolution.xy);\n"@, 'u', 'n'),
        lacks_pair("frag_color, vUv * u_resolution.xy);\n"@, 'v', 'o'),
{
    reveal_strlit("frag_color, vUv * u_resolution.xy);\n");
    reveal_with_fuel(lacks_pair, 38);
}

proof fn lemma_pairs_e5()
    ensures
        lacks_pair("}"@, 'u', 'n'),
        lacks_pair("}"@, 'v', 'o'),
{
    reveal_strlit("}");
    reveal_with_fuel(lacks_pair, 3);
}

proof fn lemma_piece_shapes()
    ensures
        uniform_keyword()[0] == 'u',
        uniform_keyword()[1] == 'n',
        uniform_keyword()[2] == 'i',
        uniform_keyword().len() == 8,
        entry_signature()[0] == 'v',
        entry_signature()[1] == 'o',
        "#version 300 es \n"@.len() > 0,
        "#version 300 es \n"@.last() == '\n',
        "#version 300 es \n"@[0] == '#',
        "precision mediump float;\n\n"@.len() > 0,
        "precision mediump float;\n\n"@.last() == '\n',
        "precision mediump float;\n\n"@[0] == 'p',
        "uniform vec3 u_resolution; // image/buffer\tThe viewport resolution (z is pixel aspect ratio, usually 1.0)\n"@.len() > 0,
        "uniform vec3 u_resolution; // image/buffer\tThe viewport resolution (z is pixel aspect ratio, usually 1.0)\n"@.last() == '\n',
        "uniform vec3 u_resolution; // image/buffer\tThe viewport resolution (z is pixel aspect ratio, usually 1.0)\n"@[0] == 'u',
        "uniform float\tu_time; // image/sound/buffer\tCurrent time in seconds\n"@.len() > 0,
        "uniform float\tu_time; // image/sound/buffer\tCurrent time in seconds\n"@.last() == '\n',
        "uniform float\tu_time; // image/sound/buffer\tCurrent time in seconds\n"@[0] == 'u',
        "uniform int\tu_frame; // image/buffer\tCurrent frame\n"@.len() > 0,
        "uniform int\tu_frame; // image/buffer\tCurrent frame\n"@.last() == '\n',
        "uniform int\tu_frame; // image/buffer\tCurrent frame\n"@[0] == 'u',
        "uniform vec3 u_resolution; // image/buffer\t"@.len() > 0,
        "uniform vec3 u_resolution; // image/buffer\t"@.last() == '\t',
        "uniform vec3 u_resolution; // image/buffer\t"@[0] == 'u',
        "uniform float\tu_time; // image/sound/buffer\t"@.len() > 0,
        "uniform float\tu_time; // image/sound/buffer\t"@.last() == '\t',
        "uniform float\tu_time; // image/sound/buffer\t"@[0] == 'u',
        "int\tu_frame; // image/buffer\tCurrent frame\n"@.len() > 0,
        "int\tu_frame; // image/buffer\tCurrent frame\n"@.last() == '\n',
        "int\tu_frame; // image/buffer\tCurrent frame\n"@[0] == 'i',
        "vec3 u_resolution; // image/buffer\t"@.len() > 0,
        "vec3 u_resolution; // image/buffer\t"@.last() == '\t',
        "vec3 u_resolution; // image/buffer\t"@[0] == 'v',
        "The viewport resolution (z"@.len() > 0,
        "The viewport resolution (z"@.last() == 'z',
        "The viewport resolution (z"@[0] == 'T',
        " is pixel aspect ratio, usually 1.0)\n"@.len() > 0,
        " is pixel aspect ratio, usually 1.0)\n"@.last() == '\n',
        " is pixel aspect ratio, usually 1.0)\n"@[0] == ' ',
        "float\tu_time; // image/sound/buffer\t"@.len() > 0,
        "float\tu_time; // image/sound/buffer\t"@.last() == '\t',
        "float\tu_time; // image/sound/buffer\t"@[0] == 'f',
        "Current time in seconds\n"@.len() > 0,
        "Current time in seconds\n"@.last() == '\n',
        "Current time in seconds\n"@[0] == 'C',
        "\nin vec2 vUv;\n"@.len() > 0,
        "\nin vec2 vUv;\n"@.last() == '\n',
        "\nin vec2 vUv;\n"@[0] == '\n',
        "out vec4 frag_color;\n\n"@.len() > 0,
        "out vec4 frag_color;\n\n"@.last() == '\n',
        "out vec4 frag_color;\n\n"@[0] == 'o',
        "void main() {\n"@.len() > 0,
        "void main() {\n"@.last() == '\n',
        "void main() {\n"@[0] == 'v',
        ") {\n"@.len() > 0,
        ") {\n"@.last() == '\n',
        ") {\n"@[0] == ')',
        "    render_image(frag_color, vUv * u_resolution.xy);\n"@.len() > 0,
        "    render_image(frag_color, vUv * u_resolution.xy);\n"@.last() == '\n',
        "    render_image(frag_color, vUv * u_resolution.xy);\n"@[0] == ' ',
        "    render_image("@.len() > 0,
        "    render_image("@.last() == '(',
        "    render_image("@[0] == ' ',
        "frag_color, vUv * u_resolution.xy);\n"@.len() > 0,
        "frag_color, vUv * u_resolution.xy);\n"@.last() == '\n',
        "frag_color, vUv * u_resolution.xy);\n"@[0] == 'f',
        "}"@.len() > 0,
        "}"@.last() == '}',
        "}"@[0] == '}',
        "uniform vec3 u_resolution; // image/buffer\tThe viewport resolution (z is pixel aspect ratio, usually 1.0)\n"@ =~= "uniform vec3 u_resolution; // image/buffer\t"@ + "The viewport resolution (z"@ + " is pixel aspect ratio, usually 1.0)\n"@,
        "uniform vec3 u_resolution; // image/buffer\tThe viewport resolution (z is pixel aspect ratio, usually 1.0)\n"@ =~= uniform_keyword() + "vec3 u_resolution; // image/buffer\t"@ + "The viewport resolution (z"@ + " is pixel aspect ratio, usually 1.0)\n"@,
        "uniform vec3 u_resolution; // image/buffer\t"@ =~= uniform_keyword() + "vec3 u_resolution; // image/buffer\t"@,
        "uniform float\tu_time; // image/sound/buffer\tCurrent time in seconds\n"@ =~= "uniform float\tu_time; // image/sound/buffer\t"@ + "Current time in seconds\n"@,
        "uniform float\tu_time; // image/sound/buffer\t"@ =~= uniform_keyword() + "float\tu_time; // image/sound/buffer\t"@,
        "uniform int\tu_frame; // image/buffer\tCurrent frame\n"@ =~= uniform_keyword() + "int\tu_frame; // image/buffer\tCurrent frame\n"@,
        "void main() {\n"@ =~= entry_signature() + ") {\n"@,
        "    render_image(frag_color, vUv * u_resolution.xy);\n"@ =~= "    render_image("@ + "frag_color, vUv * u_resolution.xy);\n"@,
        lacks(uniform_keyword(), '\n'),
        lacks(uniform_keyword(), '\t'),
        lacks(uniform_keyword(), 'z'),
        lacks(uniform_keyword(), '('),
        lacks(uniform_keyword().skip(1), uniform_keyword()[0]),
        uniform_keyword().len() > 1,
        lacks(entry_signature(), '\n'),
        lacks(entry_signature(), '\t'),
        lacks(entry_signature(), 'z'),
        lacks(entry_signature(), 'f'),
        lacks(entry_signature().skip(1), entry_signature()[0]),
        entry_signature().len() > 1,
{
    reveal_strlit("uniform ");
    reveal_strlit("void main(");
    reveal_strlit("#version 300 es \n");
    reveal_strlit("precision mediump float;\n\n");
    reveal_strlit("uniform vec3 u_resolution; // image/buffer\tThe viewport resolution (z is pixel aspect ratio, usually 1.0)\n");
    reveal_strlit("uniform float\tu_time; // image/sound/buffer\tCurrent time in seconds\n");
    reveal_strlit("uniform int\tu_frame; // image/buffer\tCurrent frame\n");
    reveal_strlit("uniform vec3 u_resolution; // image/buffer\t");
    reveal_strlit("uniform float\tu_time; // image/sound/buffer\t");
    reveal_strlit("int\tu_frame; // image/buffer\tCurrent frame\n");
    reveal_strlit("vec3 u_resolution; // image/buffer\t");
    reveal_strlit("The viewport resolution (z");
    reveal_strlit(" is pixel aspect ratio, usually 1.0)\n");
    reveal_strlit("float\tu_time; // image/sound/buffer\t");
    reveal_strlit("Current time in seconds\n");
    reveal_strlit("\nin vec2 vUv;\n");
    reveal_strlit("out vec4 frag_color;\n\n");
    reveal_strlit("void main() {\n");
    reveal_strlit(") {\n");
    reveal_strlit("    render_image(frag_color, vUv * u_resolution.xy);\n");
    reveal_strlit("    render_image(");
    reveal_strlit("frag_color, vUv * u_resolution.xy);\n");
    reveal_strlit("}");
    reveal_with_fuel(lacks, 12);
    assert("uniform vec3 u_resolution; // image/buffer\tThe viewport resolution (z is pixel aspect ratio, usually 1.0)\n"@ =~= "uniform vec3 u_resolution; // image/buffer\t"@ + "The viewport resolution (z"@ + " is pixel aspect ratio, usually 1.0)\n"@);
    assert("uniform vec3 u_resolution; // image/buffer\tThe viewport resolution (z is pixel aspect ratio, usually 1.0)\n"@ =~= uniform_keyword() + "vec3 u_resolution; // image/buffer\t"@ + "The viewport resolution (z"@ + " is pixel aspect ratio, usually 1.0)\n"@);
    assert("uniform vec3 u_resolution; // image/buffer\t"@ =~= uniform_keyword() + "vec3 u_resolution; // image/buffer\t"@);
    assert("uniform float\tu_time; // image/sound/buffer\tCurrent time in seconds\n"@ =~= "uniform float\tu_time; // image/sound/buffer\t"@ + "Current time in seconds\n"@);
    assert("uniform float\tu_time; // image/sound/buffer\t"@ =~= uniform_keyword() + "float\tu_time; // image/sound/buffer\t"@);
    assert("uniform int\tu_frame; // image/buffer\tCurrent frame\n"@ =~= uniform_keyword() + "int\tu_frame; // image/buffer\tCurrent frame\n"@);
    assert("void main() {\n"@ =~= entry_signature() + ") {\n"@);
    assert("    render_image(frag_color, vUv * u_resolution.xy);\n"@ =~= "    render_image("@ + "frag_color, vUv * u_resolution.xy);\n"@);
}

proof fn lemma_piece_counts()
    ensures
        count_occurrences(preamble(), uniform_keyword()) == 3,
        count_occurrences(preamble(), entry_signature()) == 0,
        count_occurrences(entry_point(), uniform_keyword()) == 0,
        count_occurrences(entry_point(), entry_signature()) == 1,
        preamble().len() > 0,
        preamble().last() == '\n',
        entry_point().len() > 0,
        entry_point()[0] == '\n',
{
    let u = uniform_keyword();
    let v = entry_signature();
    let h1 = "#version 300 es \n"@;
    let h2 = "precision mediump float;\n\n"@;
    let d1 = "uniform vec3 u_resolution; // image/buffer\tThe viewport resolution (z is pixel aspect ratio, usually 1.0)\n"@;
    let d2 = "uniform float\tu_time; // image/sound/buffer\tCurrent time in seconds\n"@;
    let d3 = "uniform int\tu_frame; // image/buffer\tCurrent frame\n"@;
    let d1a = "uniform vec3 u_resolution; // image/buffer\t"@;
    let d2a = "uniform float\tu_time; // image/sound/buffer\t"@;
    let d3r = "int\tu_frame; // image/buffer\tCurrent frame\n"@;
    let c11 = "vec3 u_resolution; // image/buffer\t"@;
    let c12 = "The viewport resolution (z"@;
    let c13 = " is pixel aspect ratio, usually 1.0)\n"@;
    let c21 = "float\tu_time; // image/sound/buffer\t"@;
    let c22 = "Current time in seconds\n"@;
    let e1 = "\nin vec2 vUv;\n"@;
    let e2 = "out vec4 frag_color;\n\n"@;
    let e3 = "void main() {\n"@;
    let e3r = ") {\n"@;
    let e4 = "    render_image(frag_color, vUv * u_resolution.xy);\n"@;
    let e4a = "    render_image("@;
    let e4b = "frag_color, vUv * u_resolution.xy);\n"@;
    let e5 = "}"@;
    lemma_piece_shapes();
    lemma_pairs_h1();
    lemma_pairs_h2();
    lemma_pairs_d3();
    lemma_pairs_d1a();
    lemma_pairs_d2a();
    lemma_pairs_d3r();
    lemma_pairs_c11();
    lemma_pairs_c12();
    lemma_pairs_c13();
    lemma_pairs_c21();
    lemma_pairs_c22();
    lemma_pairs_e1();
    lemma_pairs_e2();
    lemma_pairs_e3();
    lemma_pairs_e3r();
    lemma_pairs_e4a();
    lemma_pairs_e4b();
    lemma_pairs_e5();
    let x1 = e1 + e2;
    let x2 = x1 + e3;
    let x3 = x2 + e4;

    // occurrences of the uniform keyword
    lemma_count_missing_pair(h1, u, 0);
    lemma_count_missing_pair(h2, u, 0);
    lemma_count_concat(h1, h2, u);
    lemma_count_missing_pair(c11, u, 0);
    lemma_count_missing_pair(c12, u, 0);
    lemma_count_missing_pair(c13, u, 0);
    lemma_count_concat(c11, c12, u);
    lemma_count_concat(c11 + c12, c13, u);
    lemma_count_leading_pattern(u, c11 + c12 + c13);
    assert(u + (c11 + c12 + c13) =~= u + c11 + c12 + c13);
    lemma_count_missing_pair(c21, u, 1);
    lemma_count_missing_pair(c22, u, 1);
    lemma_count_concat(c21, c22, u);
    lemma_count_leading_pattern(u, c21 + c22);
    assert(u + (c21 + c22) =~= d2a + c22);
    lemma_count_missing_pair(d3r, u, 0);
    lemma_count_leading_pattern(u, d3r);
    lemma_count_concat(d1, d2, u);
    lemma_count_concat(d1 + d2, d3, u);
    lemma_count_concat(header(), uniform_declarations(), u);
    lemma_count_missing_pair(e1, u, 0);
    lemma_count_missing_pair(e2, u, 0);
    lemma_count_missing_pair(e3, u, 0);
    lemma_count_missing_pair(e4a, u, 0);
    lemma_count_missing_pair(e4b, u, 0);
    lemma_count_concat(e4a, e4b, u);
    lemma_count_missing_pair(e5, u, 0);
    lemma_count_concat(e1, e2, u);
    lemma_count_concat(x1, e3, u);
    lemma_count_concat(x2, e4, u);
    lemma_count_concat(x3, e5, u);

    // occurrences of the entry signature
    lemma_count_missing_pair(h1, v, 0);
    lemma_count_missing_pair(h2, v, 0);
    lemma_count_concat(h1, h2, v);
    lemma_count_missing_pair(d1a, v, 0);
    lemma_count_missing_pair(c12, v, 0);
    lemma_count_missing_pair(c13, v, 0);
    lemma_count_concat(d1a, c12, v);
    lemma_count_concat(d1a + c12, c13, v);
    lemma_count_missing_pair(d2a, v, 0);
    lemma_count_missing_pair(c22, v, 0);
    lemma_count_concat(d2a, c22, v);
    lemma_count_missing_pair(d3, v, 0);
    lemma_count_concat(d1, d2, v);
    lemma_count_concat(d1 + d2, d3, v);
    lemma_count_concat(header(), uniform_declarations(), v);
    lemma_count_missing_pair(e1, v, 0);
    lemma_count_missing_pair(e2, v, 0);
    lemma_count_missing_pair(e3r, v, 0);
    lemma_count_leading_pattern(v, e3r);
    lemma_count_missing_pair(e4a, v, 0);
    lemma_count_missing_pair(e4b, v, 0);
    lemma_count_concat(e4a, e4b, v);
    lemma_count_missing_pair(e5, v, 0);
    lemma_count_concat(e1, e2, v);
    lemma_count_concat(x1, e3, v);
    lemma_count_concat(x2, e4, v);
    lemma_count_concat(x3, e5, v);
}

/// The same fragment always gives the same program text.
pub proof fn lemma_prepare_shader_deterministic(raw: Seq<char>, r1: Seq<char>, r2: Seq<char>)
    requires
        r1 == assembled(raw),
        r2 == assembled(raw),
    ensures
        r1 == r2,
{
}

/// Every program text holds its fragment verbatim, as one contiguous piece.
pub proof fn lemma_assembled_holds_fragment(raw: Seq<char>)
    ensures
        contains_piece(assembled(raw), raw),
{
    let s = assembled(raw);
    let i = preamble().len() as int;
    assert(s.subrange(i, i + raw.len()) =~= raw);
}

/// For a fragment that declares no uniform and defines no entry point of its
/// own, the program text holds exactly three uniform declarations and exactly
/// one entry-point definition.
pub proof fn lemma_assembled_declarations(raw: Seq<char>)
    requires
        count_occurrences(raw, uniform_keyword()) == 0,
        count_occurrences(raw, entry_signature()) == 0,
    ensures
        count_occurrences(assembled(raw), uniform_keyword()) == 3,
        count_occurrences(assembled(raw), entry_signature()) == 1,
{
    lemma_piece_counts();
    reveal_strlit("uniform ");
    reveal_strlit("void main(");
    reveal_with_fuel(lacks, 12);
    let u = uniform_keyword();
    let v = entry_signature();
    assert(lacks(u, '\n'));
    assert(lacks(v, '\n'));
    lemma_count_concat(preamble(), raw, u);
    lemma_count_concat(preamble(), raw, v);
    lemma_count_concat(preamble() + raw, entry_point(), u);
    lemma_count_concat(preamble() + raw, entry_point(), v);
}

/// Different fragments give different program texts.
pub proof fn lemma_assembled_injective(a: Seq<char>, b: Seq<char>)
    requires
        a != b,
    ensures
        assembled(a) != assembled(b),
{
    if assembled(a) == assembled(b) {
        assert(assembled(a).len() == preamble().len() + a.len() + entry_point().len());
        assert(assembled(b).len() == preamble().len() + b.len() + entry_point().len());
        let n = preamble().len() as int;
        assert(assembled(a).subrange(n, n + a.len()) =~= a);
        assert(assembled(b).subrange(n, n + b.len()) =~= b);
        assert(a =~= b);
    }
}

} // verus!
