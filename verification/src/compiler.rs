//! The command line of the compiler that builds a kernel.
//!
//! Running the compiler is the caller's work. Its arguments are put together
//! here.

use crate::text::split_whitespace;
use crate::text::texts;
use crate::text::whitespace_fields;
use vstd::prelude::*;
use vstd::string::StringExecFns;

verus! {

/// The machine that the kernel is compiled for.
#[derive(Clone, Copy, Debug, PartialEq, Eq, Structural)]
pub enum Target {
    Aarch64,
    X86,
}

impl Target {
    /// The arguments that only this machine's compiler takes.
    pub open spec fn flags(self) -> Seq<Seq<char>> {
        match self {
            Target::Aarch64 => seq!["-fopenmp"@, "-lm"@, "-armpl"@, "-mcpu=native"@],
            Target::X86 => seq!["-lmkl_rt"@, "-march=native"@],
        }
    }

    /// The compiler that is run where the user names none.
    pub fn default_compiler(&self) -> (name: String)
        ensures
            *self == Target::Aarch64 ==> name@ == "armclang"@,
            *self == Target::X86 ==> name@ == "icc"@,
    {
        match self {
            Target::Aarch64 => String::from_str("armclang"),
            Target::X86 => String::from_str("icc"),
        }
    }
}

/// The arguments that are passed unless the user's own replace them: they
/// ask for an optimised build with all warnings as errors, name the output
/// and the source, and say where the numeric library and its headers are.
pub open spec fn default_arguments(
    target: Target,
    kernel: Seq<char>,
    out: Seq<char>,
    library_dir: Seq<char>,
    include_dir: Seq<char>,
) -> Seq<Seq<char>> {
    seq!["-O3"@, "-lnuma"@] + target.flags() + seq![
        "-Wall"@,
        "-Werror"@,
        "-o"@,
        out,
        kernel,
        "-L"@,
        library_dir,
        "-I"@,
        include_dir,
    ]
}

/// All arguments: the default ones unless the user's own replace them, then
/// the user's own, then the request for a shared object.
pub open spec fn arguments(
    target: Target,
    extra: Seq<Seq<char>>,
    replace: bool,
    kernel: Seq<char>,
    out: Seq<char>,
    library_dir: Seq<char>,
    include_dir: Seq<char>,
) -> Seq<Seq<char>> {
    (if replace {
        Seq::empty()
    } else {
        default_arguments(target, kernel, out, library_dir, include_dir)
    }) + extra + seq!["-shared"@]
}

fn push_text(list: &mut Vec<String>, text: &str)
    ensures
        texts(final(list)@) == texts(old(list)@).push(text@),
{
    list.push(String::from_str(text));
    assert(texts(list@) =~= texts(old(list)@).push(text@));
}

/// Puts the arguments together, with the user's own already split.
pub fn assemble_arguments(
    target: Target,
    extra: &Vec<String>,
    replace: bool,
    kernel: &str,
    out: &str,
    library_dir: &str,
    include_dir: &str,
) -> (list: Vec<String>)
    ensures
        texts(list@) == arguments(
            target,
            texts(extra@),
            replace,
            kernel@,
            out@,
            library_dir@,
            include_dir@,
        ),
{
    let mut list: Vec<String> = Vec::new();
    assert(texts(list@) =~= Seq::<Seq<char>>::empty());
    if !replace {
        push_text(&mut list, "-O3");
        push_text(&mut list, "-lnuma");
        match target {
            Target::Aarch64 => {
                push_text(&mut list, "-fopenmp");
                push_text(&mut list, "-lm");
                push_text(&mut list, "-armpl");
                push_text(&mut list, "-mcpu=native");
            },
            Target::X86 => {
                push_text(&mut list, "-lmkl_rt");
                push_text(&mut list, "-march=native");
            },
        }
        assert(texts(list@) =~= seq!["-O3"@, "-lnuma"@] + target.flags());
        push_text(&mut list, "-Wall");
        push_text(&mut list, "-Werror");
        push_text(&mut list, "-o");
        push_text(&mut list, out);
        push_text(&mut list, kernel);
        push_text(&mut list, "-L");
        push_text(&mut list, library_dir);
        push_text(&mut list, "-I");
        push_text(&mut list, include_dir);
        assert(texts(list@) =~= default_arguments(target, kernel@, out@, library_dir@, include_dir@));
    }
    let ghost head = texts(list@);
    let mut i: usize = 0;
    while i < extra.len()
        invariant
            i <= extra.len(),
            texts(list@) == head + texts(extra@).take(i as int),
        decreases extra.len() - i,
    {
        push_text(&mut list, extra[i].as_str());
        assert(texts(extra@).take(i + 1) =~= texts(extra@).take(i as int).push(extra@[i as int]@));
        i += 1;
    }
    assert(texts(extra@).take(extra.len() as int) =~= texts(extra@));
    push_text(&mut list, "-shared");
    assert(texts(list@) =~= head + texts(extra@) + seq!["-shared"@]);
    list
}

/// The arguments that the user's text holds: its parts between white space,
/// or none where there is no text.
pub open spec fn user_arguments(text: Option<String>) -> Seq<Seq<char>> {
    match text {
        Some(text) => whitespace_fields(text@),
        None => Seq::empty(),
    }
}

/// Puts the arguments together. The user's own are given as one text, which
/// is split at white space.
pub fn compiler_arguments(
    target: Target,
    compiler_args: &Option<String>,
    replace: bool,
    kernel: &str,
    out: &str,
    library_dir: &str,
    include_dir: &str,
) -> (list: Vec<String>)
    ensures
        texts(list@) == arguments(
            target,
            user_arguments(*compiler_args),
            replace,
            kernel@,
            out@,
            library_dir@,
            include_dir@,
        ),
{
    let extra = match compiler_args {
        Some(text) => split_whitespace(text.as_str()),
        None => {
            let none: Vec<String> = Vec::new();
            assert(texts(none@) =~= Seq::<Seq<char>>::empty());
            none
        },
    };
    assemble_arguments(target, &extra, replace, kernel, out, library_dir, include_dir)
}

} // verus!
