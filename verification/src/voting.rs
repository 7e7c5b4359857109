//! A voting booth: named options, one vote per account.

use vstd::prelude::*;

use crate::account::AccountId;
use crate::kv::AccountMap;
use crate::kv::list_get;

verus! {

/// Notification: a new option was put up for vote.
#[derive(Clone, Debug, PartialEq, Eq)]
pub struct ProposeOption {
    pub name: String,
}

/// Notification: an account voted for the option at `option_index`.
#[derive(Clone, Copy, Debug, PartialEq, Eq, Structural)]
pub struct Vote {
    pub voter: AccountId,
    pub option_index: u32,
}

/// Payload for handing the tallied results to a host that broadcasts them;
/// the booth itself reads results without announcing them.
#[derive(Clone, Debug, PartialEq, Eq)]
pub struct GetResults {
    pub results: Vec<(String, u32)>,
}

/// One entry of the booth's ordered notification log.
#[derive(Clone, Debug, PartialEq, Eq)]
pub enum VotingEvent {
    Proposed(ProposeOption),
    Voted(Vote),
}

/// The booth: options with their tallies, the voter roll, and the
/// notification log.
pub struct Voting {
    pub options: Vec<(String, u32)>,
    pub voters: AccountMap<bool>,
    pub events: Vec<VotingEvent>,
}

impl Voting {
    /// The booth's invariant; every operation preserves it.
    pub open spec fn wf(&self) -> bool {
        self.voters.wf()
    }

    /// Whether `a` has already cast its vote.
    pub open spec fn spec_has_voted(&self, a: AccountId) -> bool {
        list_get(self.voters.entries@, a) is Some
    }

    /// A fresh booth: no options, no votes, no notifications.
    pub fn new() -> (v: Voting)
        ensures
            v.wf(),
            v.options@.len() == 0,
            forall|a: AccountId| #[trigger] list_get(v.voters.entries@, a) is None,
            v.events@.len() == 0,
    {
        Voting { options: Vec::new(), voters: AccountMap::new(), events: Vec::new() }
    }

    /// Puts up a new option, starting at zero votes, and announces it.
    pub fn propose_option(&mut self, name: String)
        requires
            old(self).wf(),
        ensures
            final(self).wf(),
            final(self).options@ == old(self).options@.push((name, 0u32)),
            final(self).voters == old(self).voters,
            final(self).events@ == old(self).events@.push(
                VotingEvent::Proposed(ProposeOption { name }),
            ),
    {
        let stored = name.clone();
        self.options.push((stored, 0));
        self.events.push(VotingEvent::Proposed(ProposeOption { name }));
    }

    /// Casts the caller's vote for the option at `option_index`. Reports
    /// `false` and changes nothing when the caller has already voted or the
    /// index names no option; otherwise raises that option's tally by one,
    /// marks the caller as having voted, announces the vote, and reports
    /// `true`.
    pub fn vote(&mut self, caller: AccountId, option_index: u32) -> (r: bool)
        requires
            old(self).wf(),
            (option_index as int) < old(self).options@.len() ==> old(self).options@[option_index as int].1
                < u32::MAX,
        ensures
            final(self).wf(),
            old(self).spec_has_voted(caller) ==> r == false && *final(self) == *old(self),
            !old(self).spec_has_voted(caller) && (option_index as int) >= old(
                self,
            ).options@.len() ==> r == false && *final(self) == *old(self),
            !old(self).spec_has_voted(caller) && (option_index as int) < old(
                self,
            ).options@.len() ==> r == true && {
                &&& final(self).options@ == old(self).options@.update(
                    option_index as int,
                    (
                        old(self).options@[option_index as int].0,
                        (old(self).options@[option_index as int].1 + 1) as u32,
                    ),
                )
                &&& final(self).spec_has_voted(caller)
                &&& forall|b: AccountId|
                    b != caller ==> #[trigger] final(self).spec_has_voted(b) == old(
                        self,
                    ).spec_has_voted(b)
                &&& final(self).events@ == old(self).events@.push(
                    VotingEvent::Voted(Vote { voter: caller, option_index }),
                )
            },
    {
        if self.voters.contains_key(caller) {
            return false;
        }
        if (option_index as usize) < self.options.len() {
            let ghost pre = *self;
            let mut entry = (String::new(), 0u32);
            self.options.set_and_swap(option_index as usize, &mut entry);
            let count = entry.1;
            let mut entry2 = (entry.0, count + 1);
            self.options.set_and_swap(option_index as usize, &mut entry2);
            proof {
                assert(self.options@ =~= pre.options@.update(
                    option_index as int,
                    (
                        pre.options@[option_index as int].0,
                        (pre.options@[option_index as int].1 + 1) as u32,
                    ),
                ));
            }
            self.voters.insert(caller, true);
            self.events.push(VotingEvent::Voted(Vote { voter: caller, option_index }));
            proof {
                assert forall|b: AccountId| b != caller implies #[trigger] self.spec_has_voted(b)
                    == pre.spec_has_voted(b) by {
                    assert(list_get(self.voters.entries@, b) == list_get(
                        pre.voters.entries@,
                        b,
                    ));
                }
            }
            true
        } else {
            false
        }
    }

    /// Whether `voter` has already cast its vote.
    pub fn has_voted(&self, voter: AccountId) -> (r: bool)
        ensures
            r == self.spec_has_voted(voter),
    {
        self.voters.contains_key(voter)
    }

    /// The tally of the option at `option_index`; an index that names no
    /// option reports zero.
    pub fn get_option_count(&self, option_index: u32) -> (r: u32)
        ensures
            (option_index as int) < self.options@.len() ==> r == self.options@[option_index as int].1,
            (option_index as int) >= self.options@.len() ==> r == 0,
    {
        if (option_index as usize) < self.options.len() {
            self.options[option_index as usize].1
        } else {
            0
        }
    }

    /// Every option with its tally, in proposal order.
    pub fn get_options(&self) -> (r: Vec<(String, u32)>)
        ensures
            r@ == self.options@,
    {
        copy_options(&self.options)
    }

    /// The tallied results; the same view as [`Self::get_options`].
    pub fn get_results(&self) -> (r: Vec<(String, u32)>)
        ensures
            r@ == self.options@,
    {
        copy_options(&self.options)
    }
}

/// A plain element-wise copy of an option list.
fn copy_options(v: &Vec<(String, u32)>) -> (r: Vec<(String, u32)>)
    ensures
        r@ == v@,
{
    let mut out: Vec<(String, u32)> = Vec::new();
    let mut j: usize = 0;
    while j < v.len()
        invariant
            j <= v@.len(),
            out@ == v@.subrange(0, j as int),
        decreases v@.len() - j,
    {
        let name = v[j].0.clone();
        let count = v[j].1;
        out.push((name, count));
        proof {
            assert((name, count) == v@[j as int]);
            assert(out@ =~= v@.subrange(0, j as int + 1));
        }
        j += 1;
    }
    proof {
        assert(out@ =~= v@);
    }
    out
}

} // verus!
