//! Kernel specialization: a base kernel template is turned into a concrete
//! variant by textually prepending compile-time constant declarations, and the
//! variant carries the launch shape the benchmark driver dispatches with.

use vstd::prelude::*;
use vstd::string::StringExecFns;

verus! {

/// The decimal digit character for `d` (which must be below ten).
pub open spec fn digit_char(d: nat) -> char {
    if d == 0 {
        '0'
    } else if d == 1 {
        '1'
    } else if d == 2 {
        '2'
    } else if d == 3 {
        '3'
    } else if d == 4 {
        '4'
    } else if d == 5 {
        '5'
    } else if d == 6 {
        '6'
    } else if d == 7 {
        '7'
    } else if d == 8 {
        '8'
    } else {
        '9'
    }
}

/// The decimal rendering of `n`, most significant digit first, with no
/// leading zeroes (a single zero for `n == 0`).
pub open spec fn dec_seq(n: nat) -> Seq<char>
    decreases n,
{
    if n < 10 {
        seq![digit_char(n)]
    } else {
        dec_seq(n / 10).push(digit_char(n % 10))
    }
}

/// One prepended constant declaration, exactly as the kernel template reads
/// it: `const <name>: u32 = <value>u;` followed by a newline.
pub open spec fn spec_const_decl(name: Seq<char>, value: nat) -> Seq<char> {
    "const "@ + name + ": u32 = "@ + dec_seq(value) + "u;\n"@
}

/// The fully specialized kernel source: the bucket-count and
/// elements-per-thread constants, in that order, prepended to the base
/// template.
pub open spec fn spec_specialized(base: Seq<char>, bin_count: nat, elements_per_thread: nat) -> Seq<
    char,
> {
    spec_const_decl("BIN_COUNT"@, bin_count) + spec_const_decl(
        "ELEMENTS_PER_THREAD"@,
        elements_per_thread,
    ) + base
}

/// The one-character string for a single decimal digit.
fn digit_str(d: u32) -> (r: &'static str)
    requires
        d < 10,
    ensures
        r@ == seq![digit_char(d as nat)],
{
    proof {
        reveal_strlit("0");
        reveal_strlit("1");
        reveal_strlit("2");
        reveal_strlit("3");
        reveal_strlit("4");
        reveal_strlit("5");
        reveal_strlit("6");
        reveal_strlit("7");
        reveal_strlit("8");
        reveal_strlit("9");
    }
    match d {
        0 => "0",
        1 => "1",
        2 => "2",
        3 => "3",
        4 => "4",
        5 => "5",
        6 => "6",
        7 => "7",
        8 => "8",
        _ => "9",
    }
}

/// Appends the decimal rendering of `n` to `s`.
fn push_decimal(s: &mut String, n: u32)
    ensures
        final(s)@ == old(s)@ + dec_seq(n as nat),
    decreases n,
{
    if n >= 10 {
        push_decimal(s, n / 10);
    }
    let d = digit_str(n % 10);
    s.append(d);
    proof {
        if n >= 10 {
            assert(old(s)@ + dec_seq((n / 10) as nat) + seq![digit_char((n % 10) as nat)] =~= old(
                s,
            )@ + dec_seq(n as nat));
        } else {
            assert(old(s)@ + seq![digit_char(n as nat)] =~= old(s)@ + dec_seq(n as nat));
        }
    }
}

/// Builds the specialized kernel source for the given base template and
/// compile-time constants, exactly as `spec_specialized` describes it.
pub fn specialize_source(base: &str, bin_count: u32, elements_per_thread: u32) -> (r: String)
    ensures
        r@ == spec_specialized(base@, bin_count as nat, elements_per_thread as nat),
{
    let mut s = String::new();
    s.append("const ");
    s.append("BIN_COUNT");
    s.append(": u32 = ");
    push_decimal(&mut s, bin_count);
    s.append("u;\n");
    s.append("const ");
    s.append("ELEMENTS_PER_THREAD");
    s.append(": u32 = ");
    push_decimal(&mut s, elements_per_thread);
    s.append("u;\n");
    s.append(base);
    proof {
        assert(s@ =~= spec_specialized(base@, bin_count as nat, elements_per_thread as nat));
    }
    s
}

/// One compute-kernel variant, ready to compile: the specialized source text,
/// the entry point to invoke, and the launch shape it was written for.
pub struct KernelVariant {
    pub specialized_source: String,
    pub entry_point_name: String,
    pub workgroup_size_x: u32,
    pub workgroup_size_y: u32,
    pub elements_per_thread: u32,
}

impl KernelVariant {
    /// Assembles a variant from a base kernel template and its compile-time
    /// constants; the source is specialized by prepending the constant
    /// declarations the template references by name.
    pub fn assemble(
        base_source: &str,
        entry_point_name: &str,
        workgroup_size_x: u32,
        workgroup_size_y: u32,
        bin_count: u32,
        elements_per_thread: u32,
    ) -> (r: KernelVariant)
        ensures
            r.specialized_source@ == spec_specialized(
                base_source@,
                bin_count as nat,
                elements_per_thread as nat,
            ),
            r.entry_point_name@ == entry_point_name@,
            r.workgroup_size_x == workgroup_size_x,
            r.workgroup_size_y == workgroup_size_y,
            r.elements_per_thread == elements_per_thread,
    {
        KernelVariant {
            specialized_source: specialize_source(base_source, bin_count, elements_per_thread),
            entry_point_name: String::from_str(entry_point_name),
            workgroup_size_x,
            workgroup_size_y,
            elements_per_thread,
        }
    }
}

/// Law: specialization is idempotent -- assembling a variant's source twice
/// from the same base template and the same constants yields byte-identical
/// specialized source.
pub proof fn lemma_specialization_deterministic(
    first: Seq<char>,
    second: Seq<char>,
    base: Seq<char>,
    bin_count: nat,
    elements_per_thread: nat,
)
    requires
        first == spec_specialized(base, bin_count, elements_per_thread),
        second == spec_specialized(base, bin_count, elements_per_thread),
    ensures
        first == second,
{
}

} // verus!
