use vstd::prelude::*;

verus! {

/// Subject of every notification.
pub const MAIL_SUBJECT: &'static str = "HDD changed";

/// Display name of the sender of notifications.
pub const SENDER_NAME: &'static str = "Web scraper";

/// A notification that did not reach every recipient: the positions, in the
/// recipient list, of those whose send failed.
#[derive(Debug, Clone)]
pub struct SendError {
    pub failed: Vec<usize>,
}

/// The positions of the failed sends, ascending.
pub open spec fn failed_positions<T, E>(s: Seq<Result<T, E>>) -> Seq<int> {
    Seq::new(s.len(), |i: int| i).filter(|i: int| s[i] is Err)
}

/// The values of the sends that succeeded, in order.
pub open spec fn sent_values<T, E>(s: Seq<Result<T, E>>) -> Seq<T> {
    s.filter_map(
        |r: Result<T, E>|
            match r {
                Ok(t) => Some(t),
                Err(_) => None,
            },
    )
}

/// Gathers the outcomes of the per-recipient sends, one per recipient in
/// order: the notification succeeds only when every send did, and then yields
/// their responses in order; otherwise it fails, naming every failed position.
pub fn collect_sends<T, E>(results: Vec<Result<T, E>>) -> (r: Result<Vec<T>, SendError>)
    ensures
        (failed_positions(results@).len() == 0) == (r is Ok),
        r is Ok ==> r->Ok_0@ == sent_values(results@),
        r is Err ==> r->Err_0.failed@.map_values(|x: usize| x as int) == failed_positions(
            results@,
        ),
{
    let ghost all = results@;
    let ghost f = |r: Result<T, E>|
        match r {
            Ok(t) => Some(t),
            Err(_) => None,
        };
    let ghost p = |i: int| all[i] is Err;
    let n = results.len();
    let mut rest = results;
    let mut oks: Vec<T> = Vec::new();
    let mut failed: Vec<usize> = Vec::new();
    let mut i: usize = 0;
    while rest.len() > 0
        invariant
            i + rest.len() == all.len(),
            all.len() == n,
            rest@ == all.skip(i as int),
            f == (|r: Result<T, E>|
                match r {
                    Ok(t) => Some(t),
                    Err(_) => None,
                }),
            p == (|i: int| all[i] is Err),
            oks@ == all.take(i as int).filter_map(f),
            failed@.map_values(|x: usize| x as int) == Seq::new(i as nat, |j: int| j).filter(p),
        decreases rest.len(),
    {
        let ghost before_f = failed@;
        proof {
            all.lemma_filter_map_take_succ(f, i as int);
            assert(Seq::new((i + 1) as nat, |j: int| j) =~= Seq::new(i as nat, |j: int| j).push(
                i as int,
            ));
            Seq::new(i as nat, |j: int| j).lemma_filter_push(i as int, p);
        }
        let item = rest.remove(0);
        assert(item == all[i as int]);
        match item {
            Ok(t) => {
                oks.push(t);
                assert(failed@.map_values(|x: usize| x as int) =~= before_f.map_values(
                    |x: usize| x as int,
                ));
            },
            Err(_) => {
                failed.push(i);
                assert(failed@.map_values(|x: usize| x as int) =~= before_f.map_values(
                    |x: usize| x as int,
                ).push(i as int));
            },
        }
        assert(rest@ =~= all.skip(i + 1));
        i = i + 1;
    }
    assert(all.take(i as int) =~= all);
    assert(Seq::new(i as nat, |j: int| j) =~= Seq::new(all.len(), |j: int| j));
    if failed.len() == 0 {
        proof {
            assert forall|j: int| 0 <= j < all.len() implies !(all[j] is Err) by {
                broadcast use vstd::seq_lib::group_filter_ensures;

                if all[j] is Err {
                    let s = Seq::new(all.len(), |k: int| k);
                    assert(s[j] == j);
                    assert(s.filter(p).contains(j));
                }
            }
        }
        Ok(oks)
    } else {
        Err(SendError { failed })
    }
}

} // verus!
