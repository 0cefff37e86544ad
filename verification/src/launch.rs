//! Which arguments of a command line name files to open.

use vstd::prelude::*;

verus! {

/// An argument that starts with a dash is a flag.
pub open spec fn is_flag(arg: Seq<char>) -> bool {
    arg.len() > 0 && arg[0] == '-'
}

/// The arguments among the first `n` that name files: all but the program's
/// own name, which comes first, and the flags, in their order.
pub open spec fn file_arguments_among(args: Seq<Seq<char>>, n: int) -> Seq<Seq<char>>
    decreases n,
{
    if n <= 1 {
        Seq::empty()
    } else if is_flag(args[n - 1]) {
        file_arguments_among(args, n - 1)
    } else {
        file_arguments_among(args, n - 1).push(args[n - 1])
    }
}

/// The arguments that name files.
pub open spec fn file_arguments_of(args: Seq<Seq<char>>) -> Seq<Seq<char>> {
    file_arguments_among(args, args.len() as int)
}

/// The characters of each string of a list.
pub open spec fn texts(list: Seq<String>) -> Seq<Seq<char>> {
    list.map_values(|s: String| s@)
}

/// Whether an argument is a flag.
pub fn arg_is_flag(arg: &str) -> (r: bool)
    ensures
        r == is_flag(arg@),
{
    let mut it = arg.chars();
    match it.next() {
        Some(c) => c == '-',
        None => false,
    }
}

/// The arguments of a command line that name files.
pub fn file_arguments(argv: &Vec<String>) -> (r: Vec<String>)
    ensures
        texts(r@) == file_arguments_of(texts(argv@)),
{
    let mut files: Vec<String> = Vec::new();
    let mut i: usize = 1;
    if argv.len() <= 1 {
        assert(texts(files@) =~= file_arguments_of(texts(argv@)));
        return files;
    }
    assert(texts(files@) =~= file_arguments_among(texts(argv@), 1));
    while i < argv.len()
        invariant
            1 <= i <= argv.len(),
            texts(files@) == file_arguments_among(texts(argv@), i as int),
        decreases argv.len() - i,
    {
        let arg = &argv[i];
        assert(texts(argv@)[i as int] == arg@);
        if !arg_is_flag(arg.as_str()) {
            let ghost before = files@;
            files.push(arg.clone());
            assert(texts(files@) =~= texts(before).push(arg@));
        }
        i = i + 1;
    }
    files
}

} // verus!
