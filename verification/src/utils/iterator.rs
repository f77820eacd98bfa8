//! Splitting a run of results into what went well and what did not.

use vstd::prelude::*;

verus! {

/// The value of a result that went well.
pub open spec fn ok_of<T, E>(result: Result<T, E>) -> Option<T> {
    match result {
        Ok(value) => Some(value),
        Err(_) => None,
    }
}

/// The error of a result that failed.
pub open spec fn err_of<T, E>(result: Result<T, E>) -> Option<E> {
    match result {
        Ok(_) => None,
        Err(error) => Some(error),
    }
}

/// The values of the results that went well, in their order.
pub open spec fn oks_of<T, E>(results: Seq<Result<T, E>>) -> Seq<T> {
    results.filter_map(|result: Result<T, E>| ok_of(result))
}

/// The errors of the results that failed, in their order.
pub open spec fn errs_of<T, E>(results: Seq<Result<T, E>>) -> Seq<E> {
    results.filter_map(|result: Result<T, E>| err_of(result))
}

/// A run of results that can be split in two.
pub trait PartitionResult<T, E> {
    /// What the run is made of.
    type Item;

    /// The results of the run, in their order.
    spec fn results(&self) -> Seq<Result<T, E>>;

    /// Splits the run into the values of the results that went well and the
    /// errors of those that failed, each in the order of the run.
    fn partition_result(self) -> (parts: (Vec<T>, Vec<E>))
        ensures
            parts.0@ == oks_of(self.results()),
            parts.1@ == errs_of(self.results()),
    ;
}

impl<T, E> PartitionResult<T, E> for Vec<Result<T, E>> {
    type Item = Result<T, E>;

    open spec fn results(&self) -> Seq<Result<T, E>> {
        self@
    }

    fn partition_result(self) -> (parts: (Vec<T>, Vec<E>)) {
        let mut oks: Vec<T> = Vec::new();
        let mut errs: Vec<E> = Vec::new();
        let ghost all = self@;
        let ghost pick_ok = |result: Result<T, E>| ok_of(result);
        let ghost pick_err = |result: Result<T, E>| err_of(result);
        proof {
            assert(all.take(0) =~= Seq::<Result<T, E>>::empty());
        }
        for result in it: self
            invariant
                it.seq() == all,
                pick_ok == |result: Result<T, E>| ok_of(result),
                pick_err == |result: Result<T, E>| err_of(result),
                oks@ == all.take(it.index() as int).filter_map(pick_ok),
                errs@ == all.take(it.index() as int).filter_map(pick_err),
        {
            let ghost oks_before = oks@;
            let ghost errs_before = errs@;
            proof {
                all.lemma_filter_map_take_succ(pick_ok, it.index() as int);
                all.lemma_filter_map_take_succ(pick_err, it.index() as int);
                assert(result == all[it.index() as int]);
            }
            match result {
                Ok(value) => {
                    oks.push(value);
                    assert(oks@ =~= oks_before + seq![value]);
                    assert(errs@ =~= errs_before + Seq::<E>::empty());
                },
                Err(error) => {
                    errs.push(error);
                    assert(errs@ =~= errs_before + seq![error]);
                    assert(oks@ =~= oks_before + Seq::<T>::empty());
                },
            }
        }
        proof {
            assert(all.take(all.len() as int) =~= all);
        }
        (oks, errs)
    }
}

} // verus!
