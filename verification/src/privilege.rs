//! Getting elevated privileges: where to look for an elevation helper, which
//! one to use, and the command line handed to a Windows UAC relaunch.

use vstd::prelude::*;
use crate::text::{chars_of, string_of};

verus! {

/// The pieces of `s` between occurrences of `sep`, as `str::split` gives
/// them: always at least one, empty pieces included.
pub open spec fn split_on(s: Seq<char>, sep: char) -> Seq<Seq<char>>
    decreases s.len(),
{
    if s.len() == 0 {
        seq![Seq::empty()]
    } else {
        let p = split_on(s.drop_last(), sep);
        if s.last() == sep {
            p.push(Seq::empty())
        } else {
            p.update(p.len() - 1, p.last().push(s.last()))
        }
    }
}

/// `split_on` always yields at least one piece.
pub proof fn lemma_split_on_nonempty(s: Seq<char>, sep: char)
    ensures
        split_on(s, sep).len() >= 1,
    decreases s.len(),
{
    if s.len() > 0 {
        lemma_split_on_nonempty(s.drop_last(), sep);
    }
}

/// The directories listed in a `PATH` value, split at each `:`.
pub fn search_path_entries(path_var: &str) -> (dirs: Vec<String>)
    ensures
        dirs@.map_values(|d: String| d@) == split_on(path_var@, ':'),
{
    let chars = chars_of(path_var);
    let n = chars.len();
    let mut dirs: Vec<String> = Vec::new();
    let mut start: usize = 0;
    let mut i: usize = 0;
    assert(chars@.subrange(0, 0) =~= Seq::<char>::empty());
    assert(dirs@.map_values(|d: String| d@) =~= Seq::<Seq<char>>::empty());
    assert(dirs@.map_values(|d: String| d@).push(chars@.subrange(0, 0)) =~= seq![
        Seq::<char>::empty(),
    ]);
    while i < n
        invariant
            n == chars@.len(),
            start <= i <= n,
            dirs@.map_values(|d: String| d@).push(chars@.subrange(start as int, i as int))
                == split_on(chars@.subrange(0, i as int), ':'),
        decreases n - i,
    {
        let ghost before = dirs@.map_values(|d: String| d@);
        proof {
            lemma_split_on_nonempty(chars@.subrange(0, i as int), ':');
            assert(chars@.subrange(0, i + 1).drop_last() =~= chars@.subrange(0, i as int));
        }
        if chars[i] == ':' {
            let ghost piece = chars@.subrange(start as int, i as int);
            dirs.push(string_of(&chars, start, i));
            start = i + 1;
            assert(dirs@.map_values(|d: String| d@) =~= before.push(piece));
            assert(chars@.subrange(start as int, i + 1) =~= Seq::<char>::empty());
            assert(dirs@.map_values(|d: String| d@).push(chars@.subrange(start as int, i + 1))
                =~= split_on(chars@.subrange(0, i + 1), ':'));
        } else {
            assert(chars@.subrange(start as int, i + 1) =~= chars@.subrange(
                start as int,
                i as int,
            ).push(chars@[i as int]));
            assert(dirs@.map_values(|d: String| d@).push(chars@.subrange(start as int, i + 1))
                =~= split_on(chars@.subrange(0, i + 1), ':'));
        }
        i = i + 1;
    }
    let ghost before = dirs@.map_values(|d: String| d@);
    dirs.push(string_of(&chars, start, n));
    assert(dirs@.map_values(|d: String| d@) =~= before.push(
        chars@.subrange(start as int, n as int),
    ));
    assert(chars@.subrange(0, n as int) =~= chars@);
    dirs
}

/// A helper that relaunches a program with root privileges.
#[derive(Debug, PartialEq, Eq, Structural, Clone, Copy)]
pub enum Elevator {
    Sudo,
    Pkexec,
}

impl Elevator {
    /// The helper's command name.
    pub fn command(&self) -> (c: &'static str)
        ensures
            c@ == match self {
                Elevator::Sudo => "sudo"@,
                Elevator::Pkexec => "pkexec"@,
            },
    {
        match self {
            Elevator::Sudo => "sudo",
            Elevator::Pkexec => "pkexec",
        }
    }
}

/// The helper to relaunch with: `sudo` when it is installed, else `pkexec`,
/// else none.
pub fn choose_elevator(has_sudo: bool, has_pkexec: bool) -> (e: Option<Elevator>)
    ensures
        e == if has_sudo {
            Some(Elevator::Sudo)
        } else if has_pkexec {
            Some(Elevator::Pkexec)
        } else {
            None::<Elevator>
        },
{
    if has_sudo {
        Some(Elevator::Sudo)
    } else if has_pkexec {
        Some(Elevator::Pkexec)
    } else {
        None
    }
}

/// The strings of `list` joined with `sep` between them, as `[String]::join`
/// gives them.
pub open spec fn joined(list: Seq<Seq<char>>, sep: Seq<char>) -> Seq<char>
    decreases list.len(),
{
    if list.len() == 0 {
        Seq::empty()
    } else if list.len() == 1 {
        list[0]
    } else {
        joined(list.drop_last(), sep) + sep + list.last()
    }
}

/// The parameters of the `cmd.exe` that a UAC relaunch runs: `/k`, the
/// program path in double quotes, then the arguments joined with spaces.
pub open spec fn relaunch_parameters(exe: Seq<char>, args: Seq<Seq<char>>) -> Seq<char> {
    "/k \""@ + exe + "\" "@ + joined(args, " "@)
}

/// Builds the `cmd.exe` parameters of a UAC relaunch.
pub fn windows_relaunch_parameters(exe: &str, args: &Vec<String>) -> (p: String)
    ensures
        p@ == relaunch_parameters(exe@, args@.map_values(|a: String| a@)),
{
    let ghost list = args@.map_values(|a: String| a@);
    let mut p = String::from_str("/k \"");
    p.append(exe);
    p.append("\" ");
    let ghost head = p@;
    let n = args.len();
    let mut i: usize = 0;
    while i < n
        invariant
            n == args@.len(),
            i <= n,
            list == args@.map_values(|a: String| a@),
            p@ == head + joined(list.take(i as int), " "@),
        decreases n - i,
    {
        let ghost before = p@;
        if i > 0 {
            p.append(" ");
        }
        p.append(args[i].as_str());
        assert(list.take(i + 1).drop_last() =~= list.take(i as int));
        if i == 0 {
            assert(joined(list.take(0), " "@) =~= Seq::<char>::empty());
            assert(p@ =~= head + joined(list.take(i + 1), " "@));
        } else {
            assert(p@ =~= head + joined(list.take(i + 1), " "@));
        }
        i = i + 1;
    }
    assert(list.take(n as int) =~= list);
    assert(head =~= "/k \""@ + exe@ + "\" "@);
    p
}

/// `s` holds no `sep`.
pub open spec fn free_of(s: Seq<char>, sep: char) -> bool {
    forall|j: int| 0 <= j < s.len() ==> s[j] != sep
}

/// A piece without the separator splits into itself alone.
proof fn lemma_split_single(y: Seq<char>, sep: char)
    requires
        free_of(y, sep),
    ensures
        split_on(y, sep) == seq![y],
    decreases y.len(),
{
    if y.len() == 0 {
        assert(y =~= Seq::<char>::empty());
        assert(split_on(y, sep) =~= seq![y]);
    } else {
        let init = y.drop_last();
        assert forall|j: int| 0 <= j < init.len() implies init[j] != sep by {
            assert(init[j] == y[j]);
        }
        lemma_split_single(init, sep);
        assert(y[y.len() - 1] != sep);
        assert(init.push(y.last()) =~= y);
        let p = split_on(init, sep);
        assert(split_on(y, sep) == p.update(p.len() - 1, p.last().push(y.last())));
        assert(split_on(y, sep) =~= seq![y]);
    }
}

/// Splitting `x`, a separator and a piece without separators gives the
/// pieces of `x` and then that piece.
proof fn lemma_split_after_separator(x: Seq<char>, y: Seq<char>, sep: char)
    requires
        free_of(y, sep),
    ensures
        split_on(x + seq![sep] + y, sep) == split_on(x, sep).push(y),
    decreases y.len(),
{
    let s = x + seq![sep] + y;
    if y.len() == 0 {
        assert(y =~= Seq::<char>::empty());
        assert(s.drop_last() =~= x);
        assert(s.last() == sep);
        assert(split_on(s, sep) =~= split_on(x, sep).push(y));
    } else {
        let init = y.drop_last();
        assert forall|j: int| 0 <= j < init.len() implies init[j] != sep by {
            assert(init[j] == y[j]);
        }
        lemma_split_after_separator(x, init, sep);
        assert(s.drop_last() =~= x + seq![sep] + init);
        assert(s.last() == y.last());
        assert(y[y.len() - 1] != sep);
        assert(init.push(y.last()) =~= y);
        let p = split_on(s.drop_last(), sep);
        assert(split_on(s, sep) == p.update(p.len() - 1, p.last().push(y.last())));
        assert(split_on(s, sep) =~= split_on(x, sep).push(y));
    }
}

/// Arguments without spaces joined with spaces split back into the same
/// arguments.
proof fn lemma_joined_splits_back(args: Seq<Seq<char>>)
    requires
        args.len() >= 1,
        forall|i: int| 0 <= i < args.len() ==> free_of(#[trigger] args[i], ' '),
    ensures
        split_on(joined(args, " "@), ' ') == args,
    decreases args.len(),
{
    reveal_strlit(" ");
    if args.len() == 1 {
        lemma_split_single(args[0], ' ');
        assert(args =~= seq![args[0]]);
    } else {
        let init = args.drop_last();
        assert forall|i: int| 0 <= i < init.len() implies free_of(#[trigger] init[i], ' ') by {
            assert(init[i] == args[i]);
        }
        lemma_joined_splits_back(init);
        assert(" "@ =~= seq![' ']);
        lemma_split_after_separator(joined(init, " "@), args.last(), ' ');
        assert(init.push(args.last()) =~= args);
    }
}

/// The parameters of a UAC relaunch start with `/k "<program>" ` and carry
/// every argument: what follows that head, split at spaces, is the argument
/// list again, whenever there is an argument and none holds a space.
pub proof fn lemma_relaunch_parameters_carry_every_argument(
    exe: Seq<char>,
    args: Seq<Seq<char>>,
)
    requires
        args.len() >= 1,
        forall|i: int| 0 <= i < args.len() ==> free_of(#[trigger] args[i], ' '),
    ensures
        relaunch_parameters(exe, args).take(exe.len() + 6int) == seq!['/', 'k', ' ', '"'] + exe
            + seq!['"', ' '],
        split_on(relaunch_parameters(exe, args).skip(exe.len() + 6int), ' ') == args,
{
    reveal_strlit("/k \"");
    reveal_strlit("\" ");
    let head = "/k \""@ + exe + "\" "@;
    assert(head.len() == exe.len() + 6);
    let p = relaunch_parameters(exe, args);
    assert(p =~= head + joined(args, " "@));
    assert(p.take(exe.len() + 6int) =~= head);
    assert(head =~= seq!['/', 'k', ' ', '"'] + exe + seq!['"', ' ']);
    assert(p.skip(exe.len() + 6int) =~= joined(args, " "@));
    lemma_joined_splits_back(args);
}

} // verus!
