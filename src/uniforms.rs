use vstd::prelude::*;

use crate::renderspec::{SendCmd, SendValue};
use crate::text::{
    parse_i32, parse_i32_spec, parse_u32, parse_u32_spec,
    chars_eq, chars_of, lines, push_all, push_str, split_lines, split_words, string_from_chars, words,
};

verus! {

/// The scalar type of a shader uniform.
#[derive(Clone, Copy, Debug, PartialEq, Eq, Structural)]
pub enum VarKind {
    Float,
    Sint,
    Uint,
}

/// The kind and the vector and matrix dimensions of a fixed-size declared type.
pub open spec fn fixed_shape(ty: Seq<char>) -> Option<(VarKind, nat, nat)> {
    if ty == "float"@ {
        Some((VarKind::Float, 1, 1))
    } else if ty == "int"@ {
        Some((VarKind::Sint, 1, 1))
    } else if ty == "uint"@ {
        Some((VarKind::Uint, 1, 1))
    } else if ty == "vec2"@ {
        Some((VarKind::Float, 2, 1))
    } else if ty == "vec3"@ {
        Some((VarKind::Float, 3, 1))
    } else if ty == "vec4"@ {
        Some((VarKind::Float, 4, 1))
    } else if ty == "ivec2"@ {
        Some((VarKind::Sint, 2, 1))
    } else if ty == "ivec3"@ {
        Some((VarKind::Sint, 3, 1))
    } else if ty == "ivec4"@ {
        Some((VarKind::Sint, 4, 1))
    } else if ty == "uvec2"@ {
        Some((VarKind::Uint, 2, 1))
    } else if ty == "uvec3"@ {
        Some((VarKind::Uint, 3, 1))
    } else if ty == "uvec4"@ {
        Some((VarKind::Uint, 4, 1))
    } else if ty == "mat2x2"@ {
        Some((VarKind::Float, 2, 2))
    } else if ty == "mat2"@ {
        Some((VarKind::Float, 2, 2))
    } else if ty == "mat3x3"@ {
        Some((VarKind::Float, 3, 3))
    } else if ty == "mat3"@ {
        Some((VarKind::Float, 3, 3))
    } else if ty == "mat4x4"@ {
        Some((VarKind::Float, 4, 4))
    } else if ty == "mat4"@ {
        Some((VarKind::Float, 4, 4))
    } else if ty == "mat2x3"@ {
        Some((VarKind::Float, 2, 3))
    } else if ty == "mat2x4"@ {
        Some((VarKind::Float, 2, 4))
    } else if ty == "mat3x2"@ {
        Some((VarKind::Float, 3, 2))
    } else if ty == "mat3x4"@ {
        Some((VarKind::Float, 3, 4))
    } else if ty == "mat4x2"@ {
        Some((VarKind::Float, 4, 2))
    } else if ty == "mat4x3"@ {
        Some((VarKind::Float, 4, 3))
    } else {
        None
    }
}

fn fixed_shape_exec(ty: &Vec<char>) -> (r: Option<(VarKind, usize, usize)>)
    ensures
        r matches Some(x) ==> fixed_shape(ty@) == Some((x.0, x.1 as nat, x.2 as nat)),
        r is None ==> fixed_shape(ty@) is None,
        r matches Some(x) ==> 1 <= x.1 <= 4 && 1 <= x.2 <= 4,
{
    if chars_eq(ty, &chars_of("float")) {
        Some((VarKind::Float, 1, 1))
    } else if chars_eq(ty, &chars_of("int")) {
        Some((VarKind::Sint, 1, 1))
    } else if chars_eq(ty, &chars_of("uint")) {
        Some((VarKind::Uint, 1, 1))
    } else if chars_eq(ty, &chars_of("vec2")) {
        Some((VarKind::Float, 2, 1))
    } else if chars_eq(ty, &chars_of("vec3")) {
        Some((VarKind::Float, 3, 1))
    } else if chars_eq(ty, &chars_of("vec4")) {
        Some((VarKind::Float, 4, 1))
    } else if chars_eq(ty, &chars_of("ivec2")) {
        Some((VarKind::Sint, 2, 1))
    } else if chars_eq(ty, &chars_of("ivec3")) {
        Some((VarKind::Sint, 3, 1))
    } else if chars_eq(ty, &chars_of("ivec4")) {
        Some((VarKind::Sint, 4, 1))
    } else if chars_eq(ty, &chars_of("uvec2")) {
        Some((VarKind::Uint, 2, 1))
    } else if chars_eq(ty, &chars_of("uvec3")) {
        Some((VarKind::Uint, 3, 1))
    } else if chars_eq(ty, &chars_of("uvec4")) {
        Some((VarKind::Uint, 4, 1))
    } else if chars_eq(ty, &chars_of("mat2x2")) {
        Some((VarKind::Float, 2, 2))
    } else if chars_eq(ty, &chars_of("mat2")) {
        Some((VarKind::Float, 2, 2))
    } else if chars_eq(ty, &chars_of("mat3x3")) {
        Some((VarKind::Float, 3, 3))
    } else if chars_eq(ty, &chars_of("mat3")) {
        Some((VarKind::Float, 3, 3))
    } else if chars_eq(ty, &chars_of("mat4x4")) {
        Some((VarKind::Float, 4, 4))
    } else if chars_eq(ty, &chars_of("mat4")) {
        Some((VarKind::Float, 4, 4))
    } else if chars_eq(ty, &chars_of("mat2x3")) {
        Some((VarKind::Float, 2, 3))
    } else if chars_eq(ty, &chars_of("mat2x4")) {
        Some((VarKind::Float, 2, 4))
    } else if chars_eq(ty, &chars_of("mat3x2")) {
        Some((VarKind::Float, 3, 2))
    } else if chars_eq(ty, &chars_of("mat3x4")) {
        Some((VarKind::Float, 3, 4))
    } else if chars_eq(ty, &chars_of("mat4x2")) {
        Some((VarKind::Float, 4, 2))
    } else if chars_eq(ty, &chars_of("mat4x3")) {
        Some((VarKind::Float, 4, 3))
    } else {
        None
    }
}

pub open spec fn max_nat(a: nat, b: nat) -> nat {
    if a >= b {
        a
    } else {
        b
    }
}

/// The shape `(kind, dim_v, dim_m, dim_a)` that the words of a `//!VAR` line declare:
/// `//!VAR <type> <name> <values...>`. A fixed-size type takes exactly one value per
/// component; `int[]` takes any number (at least two slots), `vec2[]` an even number
/// (at least two vectors). Anything else declares nothing.
pub open spec fn var_shape(w: Seq<Seq<char>>) -> Option<(VarKind, nat, nat, nat)> {
    if w.len() < 3 {
        None
    } else {
        let n = (w.len() - 3) as nat;
        match fixed_shape(w[1]) {
            Some(s) => if n == s.1 * s.2 {
                Some((s.0, s.1, s.2, 1nat))
            } else {
                None
            },
            None => if w[1] == "int[]"@ {
                Some((VarKind::Sint, 1nat, 1nat, max_nat(n, 2)))
            } else if w[1] == "vec2[]"@ && n % 2 == 0 {
                Some((VarKind::Float, 2nat, 1nat, max_nat(n, 4) / 2))
            } else {
                None
            },
        }
    }
}

/// A uniform declared in shader source: its name, type, dimensions and the text of
/// its initial values.
#[derive(Clone, Debug)]
pub struct VarDecl {
    pub name: String,
    pub kind: VarKind,
    pub dim_v: usize,
    pub dim_m: usize,
    pub dim_a: usize,
    pub tokens: Vec<String>,
}

/// What a `VarDecl` denotes.
pub struct VarDeclView {
    pub name: Seq<char>,
    pub kind: VarKind,
    pub dim_v: nat,
    pub dim_m: nat,
    pub dim_a: nat,
    pub tokens: Seq<Seq<char>>,
}

impl View for VarDecl {
    type V = VarDeclView;

    open spec fn view(&self) -> VarDeclView {
        VarDeclView {
            name: self.name@,
            kind: self.kind,
            dim_v: self.dim_v as nat,
            dim_m: self.dim_m as nat,
            dim_a: self.dim_a as nat,
            tokens: self.tokens@.map_values(|t: String| t@),
        }
    }
}

impl VarDeclView {
    /// The number of 32-bit words the uniform occupies.
    pub open spec fn word_count(self) -> nat {
        self.dim_v * self.dim_m * self.dim_a
    }

    pub open spec fn wf(self) -> bool {
        &&& 1 <= self.dim_v <= 4
        &&& 1 <= self.dim_m <= 4
        &&& self.dim_a >= 1
        &&& self.tokens.len() <= self.word_count()
        &&& self.word_count() <= usize::MAX
    }
}

/// The declaration that the words `w` of a `//!VAR` line make.
pub open spec fn decl_of_words(w: Seq<Seq<char>>) -> Option<VarDeclView> {
    match var_shape(w) {
        Some(s) => Some(
            VarDeclView {
                name: w[2],
                kind: s.0,
                dim_v: s.1,
                dim_m: s.2,
                dim_a: s.3,
                tokens: w.subrange(3, w.len() as int),
            },
        ),
        None => None,
    }
}

pub open spec fn has_prefix(s: Seq<char>, p: Seq<char>) -> bool {
    p.len() <= s.len() && s.subrange(0, p.len() as int) == p
}

/// The declaration a line of shader source makes, if it is a `//!VAR` line.
pub open spec fn decl_of_line(line: Seq<char>) -> Option<VarDeclView> {
    if has_prefix(line, "//!VAR "@) {
        decl_of_words(words(line))
    } else {
        None
    }
}

/// Parses the words of a `//!VAR` line.
pub fn parse_var_words(w: &Vec<Vec<char>>) -> (r: Option<VarDecl>)
    ensures
        r matches Some(d) ==> decl_of_words(w@.map_values(|x: Vec<char>| x@)) == Some(d@) && d@.wf(),
        r is None ==> decl_of_words(w@.map_values(|x: Vec<char>| x@)) is None,
{
    let ghost ws = w@.map_values(|x: Vec<char>| x@);
    if w.len() < 3 {
        return None;
    }
    let n = w.len() - 3;
    let ty = &w[1];
    assert(ws[1] == ty@);
    let (kind, dim_v, dim_m, dim_a) = match fixed_shape_exec(ty) {
        Some(s) => {
            assert(s.1 * s.2 <= 16) by (nonlinear_arith)
                requires
                    1 <= s.1 <= 4,
                    1 <= s.2 <= 4,
            ;
            if n != s.1 * s.2 {
                return None;
            }
            (s.0, s.1, s.2, 1usize)
        },
        None => {
            if chars_eq(ty, &chars_of("int[]")) {
                (VarKind::Sint, 1, 1, if n >= 2 { n } else { 2 })
            } else if chars_eq(ty, &chars_of("vec2[]")) && n % 2 == 0 {
                let m: usize = if n >= 4 { n } else { 4 };
            assert(2 * (m / 2) == m);
            (VarKind::Float, 2, 1, m / 2)
            } else {
                return None;
            }
        },
    };
    let mut tokens: Vec<String> = Vec::new();
    for i in 3..w.len()
        invariant
            w@.len() >= 3,
            ws == w@.map_values(|x: Vec<char>| x@),
            tokens@.len() == i - 3,
            forall|k: int| 0 <= k < tokens@.len() ==> #[trigger] tokens@[k]@ == ws[k + 3],
    {
        tokens.push(string_from_chars(&w[i]));
    }
    assert(ws[2] == w@[2]@);
    let d = VarDecl { name: string_from_chars(&w[2]), kind, dim_v, dim_m, dim_a, tokens };
    assert(d@.tokens =~= ws.subrange(3, ws.len() as int));
    assert(d@.word_count() == dim_v * dim_m * dim_a);
    assert(n <= dim_v * dim_m * dim_a <= usize::MAX) by (nonlinear_arith)
        requires
            (dim_a == 1 && n == dim_v * dim_m && dim_v <= 4 && dim_m <= 4) || (dim_v == 1 && dim_m
                == 1 && dim_a >= n && dim_a <= usize::MAX) || (dim_v == 2 && dim_m == 1 && 2
                * dim_a >= n && 2 * dim_a <= usize::MAX),
    ;
    assert(decl_of_words(ws) == Some(d@));
    Some(d)
}

/// Parses one line of shader source as a `//!VAR` declaration.
pub fn parse_var_line(line: &Vec<char>) -> (r: Option<VarDecl>)
    ensures
        r matches Some(d) ==> decl_of_line(line@) == Some(d@) && d@.wf(),
        r is None ==> decl_of_line(line@) is None,
{
    let prefix = chars_of("//!VAR ");
    if !crate::text::starts_with(line, &prefix) {
        return None;
    }
    let w = split_words(line);
    assert(w@.map_values(|x: Vec<char>| x@) =~= words(line@));
    parse_var_words(&w)
}


/// What `unescaper::unescape` makes of a text: its escape sequences resolved, or
/// `None` where one is malformed.
pub uninterp spec fn unescape_of(s: Seq<char>) -> Option<Seq<char>>;

/// Relies on `unescaper::unescape`: the text with its escape sequences resolved, or an
/// error where one is malformed.
#[verifier::external_body]
fn unescape_text(v: &Vec<char>) -> (r: Option<String>)
    ensures
        r matches Some(u) ==> unescape_of(v@) == Some(u@),
        r is None ==> unescape_of(v@) is None,
{
    let s: String = v.iter().collect();
    unescaper::unescape(&s).ok()
}

/// Position of the first `c` in `s`.
pub open spec fn is_first_of(s: Seq<char>, c: char, i: int) -> bool {
    0 <= i < s.len() && s[i] == c && forall|k: int| 0 <= k < i ==> s[k] != c
}

/// Position of the last `c` in `s`.
pub open spec fn is_last_of(s: Seq<char>, c: char, i: int) -> bool {
    0 <= i < s.len() && s[i] == c && forall|k: int| i < k < s.len() ==> s[k] != c
}

pub open spec fn first_of(s: Seq<char>, c: char) -> Option<int> {
    if exists|i: int| is_first_of(s, c, i) {
        Some(choose|i: int| is_first_of(s, c, i))
    } else {
        None
    }
}

pub open spec fn last_of(s: Seq<char>, c: char) -> Option<int> {
    if exists|i: int| is_last_of(s, c, i) {
        Some(choose|i: int| is_last_of(s, c, i))
    } else {
        None
    }
}

fn find_first(s: &Vec<char>, c: char) -> (r: Option<usize>)
    ensures
        r matches Some(i) ==> first_of(s@, c) == Some(i as int),
        r is None ==> first_of(s@, c) is None,
{
    for i in 0..s.len()
        invariant
            forall|k: int| 0 <= k < i ==> s@[k] != c,
    {
        if s[i] == c {
            assert(is_first_of(s@, c, i as int));
            assert forall|j: int| is_first_of(s@, c, j) implies j == i by {
                if j < i {
                } else if j > i {
                    assert(s@[i as int] != c);
                }
            }
            return Some(i);
        }
    }
    None
}

fn find_last(s: &Vec<char>, c: char) -> (r: Option<usize>)
    ensures
        r matches Some(i) ==> last_of(s@, c) == Some(i as int),
        r is None ==> last_of(s@, c) is None,
{
    let mut j: usize = s.len();
    while j > 0
        invariant
            j <= s@.len(),
            forall|k: int| j <= k < s@.len() ==> s@[k] != c,
        decreases j,
    {
        j = j - 1;
        if s[j] == c {
            assert(is_last_of(s@, c, j as int));
            assert forall|m: int| is_last_of(s@, c, m) implies m == j by {
                if m > j {
                } else if m < j {
                    assert(s@[j as int] != c);
                }
            }
            return Some(j);
        }
    }
    None
}

/// The hexadecimal digit of `d < 16`.
pub open spec fn hex_digit(d: nat) -> char {
    "0123456789abcdef"@[d as int]
}

/// The lowercase hexadecimal digits of `n`.
pub open spec fn hex_digits(n: nat) -> Seq<char>
    decreases n,
{
    if n < 16 {
        seq![hex_digit(n)]
    } else {
        hex_digits(n / 16).push(hex_digit(n % 16))
    }
}

/// `n` as `0x` and at least two lowercase hexadecimal digits.
pub open spec fn hex_code(n: nat) -> Seq<char> {
    "0x"@ + if n < 16 {
        seq!['0', hex_digit(n)]
    } else {
        hex_digits(n)
    }
}

/// The decimal digits of `n`.
pub open spec fn dec_digits(n: nat) -> Seq<char>
    decreases n,
{
    if n < 10 {
        seq!["0123456789"@[n as int]]
    } else {
        dec_digits(n / 10).push("0123456789"@[(n % 10) as int])
    }
}

/// The codes of `v`, each as `hex_code`, separated by `", "`.
pub open spec fn code_list(v: Seq<u32>) -> Seq<char>
    decreases v.len(),
{
    if v.len() == 0 {
        seq![]
    } else if v.len() == 1 {
        hex_code(v[0] as nat)
    } else {
        code_list(v.drop_last()) + ", "@ + hex_code(v.last() as nat)
    }
}

fn hex_digits_exec(n: u32) -> (r: Vec<char>)
    ensures
        r@ == hex_digits(n as nat),
    decreases n,
{
    proof {
        reveal_strlit("0123456789abcdef");
    }
    let digits = chars_of("0123456789abcdef");
    if n < 16 {
        let mut r: Vec<char> = Vec::new();
        r.push(digits[n as usize]);
        assert(r@ =~= seq![hex_digit(n as nat)]);
        r
    } else {
        let mut r = hex_digits_exec(n / 16);
        r.push(digits[(n % 16) as usize]);
        r
    }
}

pub fn dec_digits_exec(n: usize) -> (r: Vec<char>)
    ensures
        r@ == dec_digits(n as nat),
    decreases n,
{
    proof {
        reveal_strlit("0123456789");
    }
    let digits = chars_of("0123456789");
    if n < 10 {
        let mut r: Vec<char> = Vec::new();
        r.push(digits[n]);
        assert(r@ =~= seq!["0123456789"@[n as int]]);
        r
    } else {
        let mut r = dec_digits_exec(n / 10);
        r.push(digits[n % 10]);
        r
    }
}

fn push_hex_code(out: &mut Vec<char>, n: u32)
    ensures
        final(out)@ == old(out)@ + hex_code(n as nat),
{
    proof {
        reveal_strlit("0123456789abcdef");
    }
    push_str(out, "0x");
    if n < 16 {
        let digits = chars_of("0123456789abcdef");
        out.push('0');
        out.push(digits[n as usize]);
    } else {
        let d = hex_digits_exec(n);
        push_all(out, &d);
    }
    assert(final(out)@ =~= old(out)@ + hex_code(n as nat));
}

fn push_code_list(out: &mut Vec<char>, v: &Vec<u32>)
    ensures
        final(out)@ == old(out)@ + code_list(v@),
{
    let ghost start = out@;
    for i in 0..v.len()
        invariant
            out@ == start + code_list(v@.subrange(0, i as int)),
    {
        let ghost pre = v@.subrange(0, i as int);
        let ghost next = v@.subrange(0, i + 1);
        assert(next.drop_last() =~= pre);
        if i > 0 {
            push_str(out, ", ");
        }
        push_hex_code(out, v[i]);
        proof {
            if i == 0 {
                assert(pre =~= Seq::<u32>::empty());
                assert(out@ =~= start + code_list(next));
            } else {
                assert(out@ =~= start + code_list(next));
            }
        }
    }
    assert(v@.subrange(0, v@.len() as int) =~= v@);
}

/// The characters of `t` as code points, cut to 128 and padded with zeros to 128.
pub open spec fn padded_codes(t: Seq<char>) -> Seq<u32> {
    let n = if t.len() < 128 {
        t.len()
    } else {
        128
    };
    Seq::new(128, |i: int| if i < n {
        t[i] as u32
    } else {
        0u32
    })
}

/// The shader code that a `//!STR <name> "<text>"` line adds to the prelude: the
/// unescaped text as an array of 128 character codes, with its length; an unescape
/// failure gives the empty text, and a line without a quoted text adds nothing.
pub open spec fn str_addendum(line: Seq<char>) -> Seq<char> {
    let w = words(line);
    if !has_prefix(line, "//!STR "@) || w.len() < 3 {
        seq![]
    } else {
        match (first_of(line, '"'), last_of(line, '"')) {
            (Some(a), Some(b)) => if a < b {
                let name = w[1];
                let t = match unescape_of(line.subrange(a + 1, b)) {
                    Some(u) => u,
                    None => seq![],
                };
                let n: nat = if t.len() < 128 {
                    t.len()
                } else {
                    128
                };
                (if t.len() >= 128 {
                    "// "@ + name + " is too long, truncating to 128\n"@
                } else {
                    seq![]
                }) + "int "@ + name + "_length = "@ + dec_digits(n) + ";\n"@ + "int "@ + name
                    + "[128] = {"@ + code_list(padded_codes(t)) + "};\n"@
            } else {
                seq![]
            },
            _ => seq![],
        }
    }
}

/// Appends the shader code of a `//!STR` line to `out`.
#[verifier::rlimit(60)]
pub fn push_str_addendum(out: &mut Vec<char>, line: &Vec<char>)
    ensures
        final(out)@ == old(out)@ + str_addendum(line@),
{
    let ghost start = out@;
    let prefix = chars_of("//!STR ");
    if !crate::text::starts_with(line, &prefix) {
        assert(out@ =~= start + str_addendum(line@));
        return;
    }
    let w = split_words(line);
    if w.len() < 3 {
        assert(out@ =~= start + str_addendum(line@));
        return;
    }
    let a = match find_first(line, '"') {
        Some(a) => a,
        None => {
            assert(out@ =~= start + str_addendum(line@));
            return;
        },
    };
    let b = match find_last(line, '"') {
        Some(b) => b,
        None => {
            assert(out@ =~= start + str_addendum(line@));
            return;
        },
    };
    if a >= b {
        assert(out@ =~= start + str_addendum(line@));
        return;
    }
    let mut inner: Vec<char> = Vec::new();
    for i in a + 1..b
        invariant
            a < b <= line@.len(),
            inner@ == line@.subrange(a + 1, i as int),
    {
        inner.push(line[i]);
        assert(inner@ =~= line@.subrange(a + 1, i + 1));
    }
    let text: Vec<char> = match unescape_text(&inner) {
        Some(u) => chars_of(u.as_str()),
        None => Vec::new(),
    };
    let n: usize = if text.len() < 128 {
        text.len()
    } else {
        128
    };
    let mut codes: Vec<u32> = Vec::new();
    for i in 0..128usize
        invariant
            n <= text@.len(),
            n <= 128,
            codes@.len() == i,
            forall|k: int| 0 <= k < i ==> #[trigger] codes@[k] == (if k < n {
                text@[k] as u32
            } else {
                0u32
            }),
    {
        if i < n {
            codes.push(text[i] as u32);
        } else {
            codes.push(0);
        }
    }
    assert(codes@ =~= padded_codes(text@));
    let name = &w[1];
    if text.len() >= 128 {
        push_str(out, "// ");
        push_all(out, name);
        push_str(out, " is too long, truncating to 128\n");
    }
    let ghost mid = out@;
    push_str(out, "int ");
    push_all(out, name);
    push_str(out, "_length = ");
    let digits = dec_digits_exec(n);
    push_all(out, &digits);
    push_str(out, ";\n");
    push_str(out, "int ");
    push_all(out, name);
    push_str(out, "[128] = {");
    push_code_list(out, &codes);
    push_str(out, "};\n");
    assert(out@ =~= start + str_addendum(line@));
}

/// The declarations that the lines `ls` make, in order.
pub open spec fn decls_of_lines(ls: Seq<Seq<char>>) -> Seq<VarDeclView>
    decreases ls.len(),
{
    if ls.len() == 0 {
        seq![]
    } else {
        decls_of_lines(ls.drop_last()) + match decl_of_line(ls.last()) {
            Some(d) => seq![d],
            None => seq![],
        }
    }
}

/// The shader code that the `//!STR` lines of `ls` add, in order.
pub open spec fn addendum_of_lines(ls: Seq<Seq<char>>) -> Seq<char>
    decreases ls.len(),
{
    if ls.len() == 0 {
        seq![]
    } else {
        addendum_of_lines(ls.drop_last()) + str_addendum(ls.last())
    }
}

/// Reads the uniform declarations of a shader source fragment: one `VarDecl` for each
/// `//!VAR` line, and for each `//!STR` line its shader code appended to `addendum`.
pub fn extract_vars(txt: &str, addendum: &mut String) -> (r: Vec<VarDecl>)
    ensures
        r@.map_values(|d: VarDecl| d@) == decls_of_lines(lines(txt@)),
        forall|i: int| 0 <= i < r@.len() ==> (#[trigger] r@[i])@.wf(),
        final(addendum)@ == old(addendum)@ + addendum_of_lines(lines(txt@)),
{
    let chars = chars_of(txt);
    let ls = split_lines(&chars);
    let ghost lv = lines(txt@);
    let mut out: Vec<VarDecl> = Vec::new();
    let mut extra: Vec<char> = Vec::new();
    for i in 0..ls.len()
        invariant
            ls@.len() == lv.len(),
            lv == lines(txt@),
            forall|k: int| 0 <= k < ls@.len() ==> #[trigger] ls@[k]@ == lv[k],
            out@.map_values(|d: VarDecl| d@) == decls_of_lines(lv.subrange(0, i as int)),
            forall|k: int| 0 <= k < out@.len() ==> (#[trigger] out@[k])@.wf(),
            extra@ == addendum_of_lines(lv.subrange(0, i as int)),
    {
        let ghost pre = lv.subrange(0, i as int);
        let ghost next = lv.subrange(0, i + 1);
        assert(next.drop_last() =~= pre);
        assert(next.last() == ls@[i as int]@);
        let ghost before = out@;
        match parse_var_line(&ls[i]) {
            Some(d) => {
                out.push(d);
                assert(out@.map_values(|d: VarDecl| d@) =~= before.map_values(|d: VarDecl| d@)
                    + seq![d@]);
            },
            None => {
                assert(out@.map_values(|d: VarDecl| d@) =~= before.map_values(|d: VarDecl| d@)
                    + Seq::<VarDeclView>::empty());
            },
        }
        push_str_addendum(&mut extra, &ls[i]);
    }
    assert(lv.subrange(0, ls@.len() as int) =~= lv);
    let s = string_from_chars(&extra);
    addendum.append(s.as_str());
    out
}


/// A uniform binding of a mixer's shader: its declaration and current value as
/// 32-bit words (single-precision values as their bit patterns).
#[derive(Debug)]
pub struct UniformVar {
    pub name: String,
    pub kind: VarKind,
    pub dim_v: usize,
    pub dim_m: usize,
    pub dim_a: usize,
    pub data: Vec<u32>,
    /// Whether the value may change from frame to frame.
    pub dynamic: bool,
}

pub struct UniformVarView {
    pub name: Seq<char>,
    pub kind: VarKind,
    pub dim_v: nat,
    pub dim_m: nat,
    pub dim_a: nat,
    pub data: Seq<u32>,
    pub dynamic: bool,
}

impl View for UniformVar {
    type V = UniformVarView;

    open spec fn view(&self) -> UniformVarView {
        UniformVarView {
            name: self.name@,
            kind: self.kind,
            dim_v: self.dim_v as nat,
            dim_m: self.dim_m as nat,
            dim_a: self.dim_a as nat,
            data: self.data@,
            dynamic: self.dynamic,
        }
    }
}

impl UniformVarView {
    /// The components of one array element.
    pub open spec fn elem_size(self) -> nat {
        self.dim_v * self.dim_m
    }

    pub open spec fn wf(self) -> bool {
        &&& 1 <= self.dim_v <= 4
        &&& 1 <= self.dim_m <= 4
        &&& self.dim_a >= 1
        &&& self.data.len() == self.dim_v * self.dim_m * self.dim_a
    }
}

/// The word that a value token holds: an integer token is parsed (0 where it does not
/// parse); a single-precision token's bits are given in `float_bits`.
pub open spec fn token_word(kind: VarKind, t: Seq<char>, float_bits: Seq<u32>, i: int) -> u32 {
    match kind {
        VarKind::Float => float_bits[i],
        VarKind::Sint => match parse_i32_spec(t) {
            Some(x) => x as u32,
            None => 0u32,
        },
        VarKind::Uint => match parse_u32_spec(t) {
            Some(x) => x,
            None => 0u32,
        },
    }
}

/// The initial value of a declared uniform: its tokens, then zeros.
pub open spec fn initial_var(d: VarDeclView, float_bits: Seq<u32>) -> UniformVarView {
    UniformVarView {
        name: d.name,
        kind: d.kind,
        dim_v: d.dim_v,
        dim_m: d.dim_m,
        dim_a: d.dim_a,
        data: Seq::new(
            d.word_count(),
            |i: int|
                if i < d.tokens.len() {
                    token_word(d.kind, d.tokens[i], float_bits, i)
                } else {
                    0u32
                },
        ),
        dynamic: true,
    }
}

/// The internally managed `frame` counter uniform.
pub open spec fn frame_var() -> UniformVarView {
    UniformVarView {
        name: "frame"@,
        kind: VarKind::Float,
        dim_v: 1,
        dim_m: 1,
        dim_a: 1,
        data: seq![0u32],
        dynamic: false,
    }
}

/// The words of a vector value.
pub open spec fn vector_words(value: SendValue) -> Seq<u32> {
    match value {
        SendValue::Vector(v) => v@,
        SendValue::IVector(v) => v@.map_values(|x: i32| x as u32),
        SendValue::UVector(v) => v@,
        _ => seq![],
    }
}

/// The number of words a vector value of `n` words occupies in a uniform with
/// `count` elements of `elem` components. A single non-scalar element keeps room for
/// one element, anything else for two; unsigned vectors swap the two rules.
pub open spec fn vector_slots(count: nat, elem: nat, n: nat, unsigned: bool) -> nat {
    let single = count == 1 && elem > 1;
    let room = if single != unsigned {
        elem
    } else {
        2 * elem
    };
    max_nat(n, room)
}

/// The smallest multiple of `e` that is at least `c`.
pub open spec fn round_up(c: nat, e: nat) -> nat {
    if c % e == 0 {
        c
    } else {
        (c + (e - c % e)) as nat
    }
}

/// `round_up(c, e)` is a multiple of `e`, at least `c`, and the only multiple of `e`
/// between `c` and itself.
pub proof fn lemma_round_up(c: nat, e: nat, len: nat)
    requires
        e > 0,
    ensures
        round_up(c, e) >= c,
        round_up(c, e) % e == 0,
        (len % e == 0 && c <= len <= round_up(c, e)) ==> len == round_up(c, e),
{
    let q = (c / e) as int;
    let r = (c % e) as int;
    vstd::arithmetic::div_mod::lemma_fundamental_div_mod(c as int, e as int);
    vstd::arithmetic::div_mod::lemma_mod_bound(c as int, e as int);
    vstd::arithmetic::div_mod::lemma_fundamental_div_mod(len as int, e as int);
    let ql = (len / e) as int;
    if r != 0 {
        assert(c + (e - r) == e * (q + 1)) by (nonlinear_arith)
            requires
                c == e * q + r,
        ;
        assert(round_up(c, e) == e * (q + 1));
        vstd::arithmetic::mul::lemma_mul_is_commutative(e as int, q + 1);
        vstd::arithmetic::div_mod::lemma_mod_multiples_basic(q + 1, e as int);
        if len % e == 0 && c <= len <= round_up(c, e) {
            assert(len == e * ql);
            assert(ql == q + 1) by (nonlinear_arith)
                requires
                    e > 0,
                    0 < r < e,
                    e * q + r <= e * ql,
                    e * ql <= e * (q + 1),
            ;
        }
    }
}

/// The uniform after being set to `value`: a scalar overwrites the first word; a
/// vector replaces the whole value, zero-padded to the smallest whole number of
/// elements that holds `vector_slots` words.
pub open spec fn updated_var(var: UniformVarView, value: SendValue) -> UniformVarView {
    let scalar = match value {
        SendValue::Float(b) => Some(b),
        SendValue::Integer(i) => Some(i as u32),
        SendValue::Unsigned(u) => Some(u),
        _ => None,
    };
    match scalar {
        Some(w) => UniformVarView { data: var.data.update(0, w), ..var },
        None => {
            let words = vector_words(value);
            let len = round_up(
                vector_slots(var.dim_a, var.elem_size(), words.len(), value is UVector),
                var.elem_size(),
            );
            UniformVarView {
                data: words + Seq::new((len - words.len()) as nat, |i: int| 0u32),
                dim_a: len / var.elem_size(),
                ..var
            }
        },
    }
}

pub open spec fn is_first_named(vars: Seq<UniformVarView>, name: Seq<char>, i: int) -> bool {
    0 <= i < vars.len() && vars[i].name == name && forall|k: int|
        0 <= k < i ==> vars[k].name != name
}

/// The position of the first uniform called `name`.
pub open spec fn find_var(vars: Seq<UniformVarView>, name: Seq<char>) -> Option<int> {
    if exists|i: int| is_first_named(vars, name, i) {
        Some(choose|i: int| is_first_named(vars, name, i))
    } else {
        None
    }
}

/// The uniform bindings of a mixer's shader, in declaration order.
#[derive(Debug)]
pub struct UniformStore {
    pub vars: Vec<UniformVar>,
}

impl View for UniformStore {
    type V = Seq<UniformVarView>;

    open spec fn view(&self) -> Seq<UniformVarView> {
        self.vars@.map_values(|v: UniformVar| v@)
    }
}

impl UniformStore {
    pub open spec fn wf(&self) -> bool {
        forall|i: int| 0 <= i < self@.len() ==> (#[trigger] self@[i]).wf()
    }

    /// The bindings of the declarations `decls`, in order, followed by the internal
    /// `frame` counter. `float_bits[i]` gives the bit patterns of the tokens of a
    /// single-precision declaration `decls[i]` (it is not read for the others).
    pub fn from_decls(decls: &Vec<VarDecl>, float_bits: &Vec<Vec<u32>>) -> (r: UniformStore)
        requires
            float_bits@.len() == decls@.len(),
            forall|i: int| 0 <= i < decls@.len() ==> (#[trigger] decls@[i])@.wf(),
            forall|i: int|
                0 <= i < decls@.len() && decls@[i].kind == VarKind::Float
                    ==> (#[trigger] float_bits@[i])@.len() == decls@[i].tokens@.len(),
        ensures
            r.wf(),
            r@ == Seq::new(decls@.len() as nat, |i: int| initial_var(decls@[i]@, float_bits@[i]@)).push(
                frame_var(),
            ),
    {
        let mut vars: Vec<UniformVar> = Vec::new();
        for i in 0..decls.len()
            invariant
                float_bits@.len() == decls@.len(),
                forall|k: int| 0 <= k < decls@.len() ==> (#[trigger] decls@[k])@.wf(),
                forall|k: int|
                    0 <= k < decls@.len() && decls@[k].kind == VarKind::Float
                        ==> (#[trigger] float_bits@[k])@.len() == decls@[k].tokens@.len(),
                vars@.len() == i,
                forall|k: int|
                    0 <= k < i ==> (#[trigger] vars@[k])@ == initial_var(decls@[k]@, float_bits@[k]@),
                forall|k: int| 0 <= k < i ==> (#[trigger] vars@[k])@.wf(),
        {
            let v = Self::initial(&decls[i], &float_bits[i]);
            vars.push(v);
        }
        let mut frame: Vec<u32> = Vec::new();
        frame.push(0);
        vars.push(
            UniformVar {
                name: crate::text::string_from_chars(&chars_of("frame")),
                kind: VarKind::Float,
                dim_v: 1,
                dim_m: 1,
                dim_a: 1,
                data: frame,
                dynamic: false,
            },
        );
        let r = UniformStore { vars };
        assert(r@ =~= Seq::new(decls@.len() as nat, |i: int| initial_var(decls@[i]@, float_bits@[i]@)).push(
            frame_var(),
        ));
        r
    }

    fn initial(d: &VarDecl, float_bits: &Vec<u32>) -> (r: UniformVar)
        requires
            d@.wf(),
            d.kind == VarKind::Float ==> float_bits@.len() == d.tokens@.len(),
        ensures
            r@ == initial_var(d@, float_bits@),
            r@.wf(),
    {
        assert(1 <= d.dim_v * d.dim_m <= 16) by (nonlinear_arith)
            requires
                1 <= d.dim_v <= 4,
                1 <= d.dim_m <= 4,
        ;
        let count = d.dim_v * d.dim_m;
        let count = count * d.dim_a;
        let mut data: Vec<u32> = Vec::new();
        for i in 0..count
            invariant
                d@.wf(),
                count == d@.word_count(),
                d.kind == VarKind::Float ==> float_bits@.len() == d.tokens@.len(),
                data@.len() == i,
                forall|k: int| 0 <= k < i ==> #[trigger] data@[k] == initial_var(d@, float_bits@).data[k],
        {
            let w: u32 = if i < d.tokens.len() {
                assert(d@.tokens[i as int] == d.tokens@[i as int]@);
                match d.kind {
                    VarKind::Float => float_bits[i],
                    VarKind::Sint => match parse_i32(&chars_of(d.tokens[i].as_str())) {
                        Some(x) => #[verifier::truncate] (x as u32),
                        None => 0,
                    },
                    VarKind::Uint => match parse_u32(&chars_of(d.tokens[i].as_str())) {
                        Some(x) => x,
                        None => 0,
                    },
                }
            } else {
                0
            };
            data.push(w);
        }
        let r = UniformVar {
            name: d.name.clone(),
            kind: d.kind,
            dim_v: d.dim_v,
            dim_m: d.dim_m,
            dim_a: d.dim_a,
            data,
            dynamic: true,
        };
        assert(r@.data =~= initial_var(d@, float_bits@).data);
        r
    }

    /// The position of the first binding called `name`.
    pub fn find(&self, name: &String) -> (r: Option<usize>)
        ensures
            r matches Some(i) ==> find_var(self@, name@) == Some(i as int),
            r is None ==> find_var(self@, name@) is None,
    {
        for i in 0..self.vars.len()
            invariant
                forall|k: int| 0 <= k < i ==> self@[k].name != name@,
        {
            if self.vars[i].name == *name {
                assert(is_first_named(self@, name@, i as int));
                assert forall|j: int| is_first_named(self@, name@, j) implies j == i by {
                    if j > i {
                        assert(self@[i as int].name == name@);
                    }
                }
                return Some(i);
            }
        }
        assert forall|j: int| !is_first_named(self@, name@, j) by {
            if 0 <= j < self@.len() {
                assert(self@[j].name != name@);
            }
        }
        None
    }

    /// Sets the uniform that `cmd` names (see `updated_var`); a name no binding has is
    /// ignored.
    pub fn update_values(&mut self, cmd: &SendCmd)
        requires
            old(self).wf(),
        ensures
            final(self).wf(),
            match find_var(old(self)@, cmd.name@) {
                None => final(self)@ == old(self)@,
                Some(i) => final(self)@ == old(self)@.update(i, updated_var(old(self)@[i], cmd.value)),
            },
    {
        let i = match self.find(&cmd.name) {
            Some(i) => i,
            None => return,
        };
        let ghost old_view = self@;
        assert(self@[i as int] == self.vars@[i as int]@);
        let mut var = UniformVar {
            name: String::new(),
            kind: VarKind::Float,
            dim_v: 1,
            dim_m: 1,
            dim_a: 1,
            data: Vec::new(),
            dynamic: false,
        };
        self.vars.set_and_swap(i, &mut var);
        let ghost var0 = var@;
        assert(var0 == old_view[i as int]);
        assert(var0.wf());
        set_var(&mut var, &cmd.value);
        self.vars.set_and_swap(i, &mut var);
        assert(self@ =~= old_view.update(i as int, updated_var(var0, cmd.value)));
    }
}

/// Sets one uniform to `value`.
fn set_var(var: &mut UniformVar, value: &SendValue)
    requires
        old(var)@.wf(),
    ensures
        final(var)@.wf(),
        final(var)@ == updated_var(old(var)@, *value),
{
    assert(var.data@.len() >= 1) by (nonlinear_arith)
        requires
            var.dim_v >= 1,
            var.dim_m >= 1,
            var.dim_a >= 1,
            var.data@.len() == var.dim_v * var.dim_m * var.dim_a,
    ;
    let (words, unsigned): (Vec<u32>, bool) = match value {
        SendValue::Float(b) => {
            var.data.set(0, *b);
            return;
        },
        SendValue::Integer(x) => {
            var.data.set(0, #[verifier::truncate] (*x as u32));
            return;
        },
        SendValue::Unsigned(u) => {
            var.data.set(0, *u);
            return;
        },
        SendValue::Vector(v) => (copy_words(v), false),
        SendValue::IVector(v) => {
            let mut w: Vec<u32> = Vec::new();
            for k in 0..v.len()
                invariant
                    w@ == v@.subrange(0, k as int).map_values(|x: i32| x as u32),
            {
                w.push(#[verifier::truncate] (v[k] as u32));
                assert(w@ =~= v@.subrange(0, k + 1).map_values(|x: i32| x as u32));
            }
            assert(v@.subrange(0, v@.len() as int) =~= v@);
            (w, false)
        },
        SendValue::UVector(v) => (copy_words(v), true),
    };
    assert(words@ == vector_words(*value));
    assert(1 <= var.dim_v * var.dim_m <= 16) by (nonlinear_arith)
        requires
            1 <= var.dim_v <= 4,
            1 <= var.dim_m <= 4,
    ;
    let elem = var.dim_v * var.dim_m;
    let single = var.dim_a == 1 && elem > 1;
    let room: usize = if single != unsigned {
        elem
    } else {
        2 * elem
    };
    let c = if words.len() >= room {
        words.len()
    } else {
        room
    };
    assert(c == vector_slots(var.dim_a as nat, elem as nat, words@.len(), unsigned));
    let ghost target = round_up(c as nat, elem as nat);
    proof {
        lemma_round_up(c as nat, elem as nat, 0);
    }
    let mut data = words;
    let ghost w0 = data@;
    while data.len() < c || data.len() % elem != 0
        invariant
            w0.len() <= data@.len() <= target,
            w0.len() <= c,
            elem >= 1,
            target == round_up(c as nat, elem as nat),
            target >= c,
            target % (elem as nat) == 0,
            data@ == w0 + Seq::new((data@.len() - w0.len()) as nat, |i: int| 0u32),
        decreases target - data@.len(),
    {
        if data.len() >= c {
            assert(data@.len() != target);
        }
        data.push(0);
        assert(data@ =~= w0 + Seq::new((data@.len() - w0.len()) as nat, |i: int| 0u32));
    }
    proof {
        lemma_round_up(c as nat, elem as nat, data@.len());
    }
    let len = data.len();
    assert(len == target);
    var.data = data;
    var.dim_a = len / elem;
    assert(len == elem * (len / elem)) by {
        vstd::arithmetic::div_mod::lemma_fundamental_div_mod(len as int, elem as int);
    }
    assert(len >= elem) by {
        assert(c >= room);
    }
    assert(len / elem >= 1) by {
        vstd::arithmetic::div_mod::lemma_div_is_ordered(elem as int, len as int, elem as int);
        vstd::arithmetic::div_mod::lemma_div_by_self(elem as int);
    }
    assert(var.data@.len() == var.dim_v * var.dim_m * var.dim_a) by (nonlinear_arith)
        requires
            var.data@.len() == len,
            elem == var.dim_v * var.dim_m,
            len == elem * var.dim_a,
    ;
}

fn copy_words(v: &Vec<u32>) -> (r: Vec<u32>)
    ensures
        r@ == v@,
{
    let mut w: Vec<u32> = Vec::new();
    for k in 0..v.len()
        invariant
            w@ == v@.subrange(0, k as int),
    {
        w.push(v[k]);
        assert(w@ =~= v@.subrange(0, k + 1));
    }
    assert(v@.subrange(0, v@.len() as int) =~= v@);
    w
}

} // verus!
