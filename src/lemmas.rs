use vstd::prelude::*;

use crate::configuration::{FileLoad, first_failure, verbose_after, resolved_verbose};
use crate::configuration::Configuration;
use crate::global::initialized;

verus! {

/// With no verbosity flag and no configuration file anywhere, the program is
/// not verbose.
pub proof fn lemma_defaults_without_files(loads: Seq<FileLoad>)
    requires
        forall|i: int| 0 <= i < loads.len() ==> loads[i] is NotFound,
    ensures
        resolved_verbose(false, loads) == Ok::<bool, Seq<char>>(false),
    decreases loads.len(),
{
    if loads.len() > 0 {
        let prefix = loads.drop_last();
        assert forall|i: int| 0 <= i < prefix.len() implies prefix[i] is NotFound by {
            assert(prefix[i] == loads[i]);
        }
        lemma_defaults_without_files(prefix);
        assert(loads.last() is NotFound);
    }
}

/// Whenever the build succeeds, the verbosity flag makes the program verbose,
/// whatever the files hold.
pub proof fn lemma_flag_wins(loads: Seq<FileLoad>)
    requires
        first_failure(loads) is None,
    ensures
        resolved_verbose(true, loads) == Ok::<bool, Seq<char>>(true),
{
}

/// A malformed file has the effect of no file at all.
pub proof fn lemma_malformed_is_absent(verbose_flag: bool, loads: Seq<FileLoad>, i: int)
    requires
        0 <= i < loads.len(),
        loads[i] is Malformed,
    ensures
        resolved_verbose(verbose_flag, loads) == resolved_verbose(
            verbose_flag,
            loads.update(i, FileLoad::NotFound),
        ),
{
    lemma_malformed_is_absent_parts(loads, i);
}

proof fn lemma_malformed_is_absent_parts(loads: Seq<FileLoad>, i: int)
    requires
        0 <= i < loads.len(),
        loads[i] is Malformed,
    ensures
        first_failure(loads) == first_failure(loads.update(i, FileLoad::NotFound)),
        verbose_after(false, loads) == verbose_after(false, loads.update(i, FileLoad::NotFound)),
    decreases loads.len(),
{
    let changed = loads.update(i, FileLoad::NotFound);
    if i == loads.len() - 1 {
        assert(changed.drop_last() =~= loads.drop_last());
    } else {
        assert(changed.drop_last() =~= loads.drop_last().update(i, FileLoad::NotFound));
        lemma_malformed_is_absent_parts(loads.drop_last(), i);
    }
}

/// A configuration file that exists but cannot be read stops the build.
pub proof fn lemma_unreadable_stops(verbose_flag: bool, loads: Seq<FileLoad>, i: int)
    requires
        0 <= i < loads.len(),
        loads[i] is Unreadable,
    ensures
        resolved_verbose(verbose_flag, loads) is Err,
    decreases loads.len(),
{
    if i < loads.len() - 1 {
        lemma_unreadable_stops(verbose_flag, loads.drop_last(), i);
    }
}

/// Once the holder has a configuration, offering it another changes nothing:
/// every later read sees the configuration set first.
pub proof fn lemma_initialized_once(slot: Option<Configuration>, first: Configuration, later: Configuration)
    ensures
        initialized(slot, first) is Some,
        initialized(initialized(slot, first), later) == initialized(slot, first),
{
}

} // verus!
