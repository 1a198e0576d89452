//! Collector supervisor: which adapters of the configured set take part in a
//! run. Every enabled adapter is started in its own concurrent context and
//! runs to completion independently — a failing adapter is logged and never
//! aborts its siblings — and the run blocks until all of them finish. The
//! selection below decides who runs; with nothing enabled the run fails fast
//! instead of idling.

use vstd::prelude::*;

verus! {

/// One adapter as the supervisor enumerates it: its fixed name and whether
/// the configuration enables it.
#[derive(Debug, Clone)]
pub struct AdapterDescriptor {
    /// The adapter's name, used to report its completion or failure.
    pub name: String,
    /// Whether the adapter takes part in the run.
    pub enabled: bool,
}

/// Why a run could not start.
#[derive(Debug, Clone, Copy, PartialEq, Eq, Structural)]
pub enum SupervisorError {
    /// No adapter of the set is enabled; starting would idle forever.
    NoCollectorsEnabled,
}

impl SupervisorError {
    /// The operator-facing account of the error.
    pub fn message(&self) -> (r: &'static str)
        ensures
            r@ == "all collector service are not enabled."@,
    {
        "all collector service are not enabled."
    }
}

/// The positions of the enabled descriptors, in order.
pub open spec fn enabled_indices(ds: Seq<AdapterDescriptor>) -> Seq<int>
    decreases ds.len(),
{
    if ds.len() == 0 {
        Seq::empty()
    } else {
        let prefix = enabled_indices(ds.drop_last());
        if ds.last().enabled {
            prefix.push(ds.len() - 1)
        } else {
            prefix
        }
    }
}

/// Selects the adapters that take part in the run: exactly the enabled
/// descriptors, by position and in order. With none enabled the run is
/// refused outright.
pub fn select_enabled(ds: &Vec<AdapterDescriptor>) -> (r: Result<Vec<usize>, SupervisorError>)
    ensures
        (r matches Err(e) && e == SupervisorError::NoCollectorsEnabled) <==> (forall|j: int|
            0 <= j < ds@.len() ==> !ds@[j].enabled),
        r matches Ok(v) ==> v@.map_values(|u: usize| u as int) == enabled_indices(ds@),
{
    let n = ds.len();
    let mut selected: Vec<usize> = Vec::new();
    let mut i: usize = 0;
    proof {
        assert(ds@.subrange(0, 0) =~= Seq::<AdapterDescriptor>::empty());
        assert(selected@.map_values(|u: usize| u as int) =~= enabled_indices(ds@.subrange(0, 0)));
    }
    while i < n
        invariant
            i <= n,
            n == ds@.len(),
            selected@.map_values(|u: usize| u as int) == enabled_indices(ds@.subrange(0, i as int)),
            (selected@.len() == 0) == (forall|j: int| 0 <= j < i ==> !ds@[j].enabled),
            forall|k: int| 0 <= k < selected@.len() ==> selected@[k] < i,
        decreases n - i,
    {
        let ghost prev = selected@;
        if ds[i].enabled {
            selected.push(i);
        }
        proof {
            assert(ds@.subrange(0, i + 1).drop_last() =~= ds@.subrange(0, i as int));
            assert(ds@.subrange(0, i + 1).last() == ds@[i as int]);
            assert(selected@.map_values(|u: usize| u as int) =~= enabled_indices(
                ds@.subrange(0, i + 1),
            ));
        }
        i = i + 1;
    }
    proof {
        assert(ds@.subrange(0, n as int) =~= ds@);
    }
    if selected.len() == 0 {
        Err(SupervisorError::NoCollectorsEnabled)
    } else {
        Ok(selected)
    }
}

} // verus!
