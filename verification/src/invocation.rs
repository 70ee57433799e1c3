//! The command line of one run and the resolution of its build directory.

use vstd::prelude::*;

verus! {

/// The option token that names the build directory on the command line.
pub open spec fn flag_token() -> Seq<char> {
    "-B"@
}

/// The arguments of one run: the value of the named build-directory option
/// (defaulting to `.` when absent) and the trailing arguments, kept verbatim
/// and in their original order.
pub struct InvocationArgs {
    pub build_directory: String,
    pub trailing_args: Vec<String>,
}

/// The effective build directory. The first occurrence of the flag token
/// inside the trailing arguments overrides `default`, provided some token
/// follows it immediately; a flag token standing last is ignored and `default`
/// is kept silently.
pub open spec fn resolved_dir(default: Seq<char>, trailing: Seq<Seq<char>>) -> Seq<char>
    decreases trailing.len(),
{
    if trailing.len() == 0 {
        default
    } else if trailing[0] == flag_token() {
        if trailing.len() >= 2 {
            trailing[1]
        } else {
            default
        }
    } else {
        resolved_dir(default, trailing.skip(1))
    }
}

/// Dropping a flag-free prefix of the trailing arguments does not change the
/// resolved directory.
proof fn lemma_resolved_dir_skip(default: Seq<char>, trailing: Seq<Seq<char>>, i: int)
    requires
        0 <= i <= trailing.len(),
        forall|j: int| 0 <= j < i ==> trailing[j] != flag_token(),
    ensures
        resolved_dir(default, trailing) == resolved_dir(default, trailing.skip(i)),
    decreases i,
{
    if i > 0 {
        assert(trailing[0] != flag_token());
        assert forall|j: int| 0 <= j < i - 1 implies trailing.skip(1)[j] != flag_token() by {
            assert(trailing.skip(1)[j] == trailing[j + 1]);
        }
        lemma_resolved_dir_skip(default, trailing.skip(1), i - 1);
        assert(trailing.skip(1).skip(i - 1) =~= trailing.skip(i));
    } else {
        assert(trailing.skip(0) =~= trailing);
    }
}

/// Law: a flag token inside the trailing arguments overrides the named option.
/// Where the first occurrence of the flag token is followed by some token, the
/// resolved directory is that following token, whatever the named option held.
pub proof fn lemma_trailing_flag_overrides(default: Seq<char>, trailing: Seq<Seq<char>>, i: int)
    requires
        0 <= i,
        i + 1 < trailing.len(),
        trailing[i] == flag_token(),
        forall|j: int| 0 <= j < i ==> trailing[j] != flag_token(),
    ensures
        resolved_dir(default, trailing) == trailing[i + 1],
{
    lemma_resolved_dir_skip(default, trailing, i);
    assert(trailing.skip(i)[0] == trailing[i]);
    assert(trailing.skip(i)[1] == trailing[i + 1]);
}

/// Law: without the flag token among the trailing arguments, the named
/// option's value is kept.
pub proof fn lemma_absent_flag_keeps_default(default: Seq<char>, trailing: Seq<Seq<char>>)
    requires
        forall|j: int| 0 <= j < trailing.len() ==> trailing[j] != flag_token(),
    ensures
        resolved_dir(default, trailing) == default,
{
    lemma_resolved_dir_skip(default, trailing, trailing.len() as int);
    assert(trailing.skip(trailing.len() as int) =~= Seq::<Seq<char>>::empty());
}

/// Law: a flag token standing as the last trailing argument, with no earlier
/// occurrence, leaves the named option's value in force.
pub proof fn lemma_flag_without_value_keeps_default(default: Seq<char>, trailing: Seq<Seq<char>>)
    requires
        trailing.len() > 0,
        trailing[trailing.len() - 1] == flag_token(),
        forall|j: int| 0 <= j < trailing.len() - 1 ==> trailing[j] != flag_token(),
    ensures
        resolved_dir(default, trailing) == default,
{
    lemma_resolved_dir_skip(default, trailing, trailing.len() - 1);
    assert(trailing.skip(trailing.len() - 1).len() == 1);
    assert(trailing.skip(trailing.len() - 1)[0] == trailing[trailing.len() - 1]);
}

impl InvocationArgs {
    /// The effective build directory of this invocation: the named option's
    /// value, unless the first flag token inside the trailing arguments is
    /// followed by a token, which then wins.
    pub fn resolved_build_directory(&self) -> (r: String)
        ensures
            r@ == resolved_dir(self.build_directory@, self.trailing_args.deep_view()),
    {
        let flag: String = "-B".to_owned();
        let n = self.trailing_args.len();
        let mut i: usize = 0;
        while i < n
            invariant
                i <= n,
                n == self.trailing_args.len(),
                flag@ == flag_token(),
                forall|j: int| 0 <= j < i ==> self.trailing_args.deep_view()[j] != flag_token(),
            decreases n - i,
        {
            if self.trailing_args[i] == flag {
                proof {
                    lemma_resolved_dir_skip(
                        self.build_directory@,
                        self.trailing_args.deep_view(),
                        i as int,
                    );
                }
                if i + 1 < n {
                    return self.trailing_args[i + 1].clone();
                } else {
                    return self.build_directory.clone();
                }
            }
            i += 1;
        }
        proof {
            lemma_absent_flag_keeps_default(self.build_directory@, self.trailing_args.deep_view());
        }
        self.build_directory.clone()
    }
}

} // verus!
