use vstd::prelude::*;

use crate::parse::{
    all_white, is_blank, parse_piece, pieces, split_pieces, tokens, views, Invocation,
};
use crate::registry::{CommandList, Outcome};

verus! {

/// What became of one piece of an input line.
#[derive(Debug)]
pub enum Step {
    /// The piece was empty after trimming and was skipped.
    Skipped,
    /// The piece named a command; `outcome` says whether and which handler
    /// runs with `args`.
    Ran { name: String, args: Vec<String>, outcome: Outcome },
}

/// `st` is what the registry `list` makes of the piece `p`.
pub open spec fn step_of<H>(list: &CommandList<H>, st: Step, p: Seq<char>) -> bool {
    let t = tokens(p);
    match st {
        Step::Skipped => t.len() == 0,
        Step::Ran { name, args, outcome } => {
            &&& t.len() > 0
            &&& name@ == t[0]
            &&& views(args@) == t.drop_first()
            &&& outcome == list.outcome(t[0], (t.len() - 1) as nat)
        },
    }
}

impl<H> CommandList<H> {
    /// Runs the registry over one input line: nothing for a blank line, else
    /// one step for each piece between delimiters, left to right. A piece
    /// that fails does not stop the pieces after it.
    pub fn dispatch_line(&self, input: &str) -> (r: Vec<Step>)
        requires
            self.wf(),
        ensures
            all_white(input@) ==> r@.len() == 0,
            !all_white(input@) ==> r@.len() == pieces(input@).len(),
            !all_white(input@) ==> forall|k: int|
                0 <= k < r@.len() ==> step_of(self, #[trigger] r@[k], pieces(input@)[k]),
    {
        let mut out: Vec<Step> = Vec::new();
        if is_blank(input) {
            return out;
        }
        let ps = split_pieces(input);
        let mut k: usize = 0;
        while k < ps.len()
            invariant
                self.wf(),
                views(ps@) == pieces(input@),
                k <= ps@.len(),
                out@.len() == k,
                forall|j: int| 0 <= j < k ==> step_of(self, #[trigger] out@[j], pieces(input@)[j]),
            decreases ps@.len() - k,
        {
            proof {
                assert(views(ps@)[k as int] == ps@[k as int]@);
            }
            let step = match parse_piece(ps[k].as_str()) {
                Invocation::Empty => Step::Skipped,
                Invocation::Call { name, args } => {
                    let outcome = self.execute_command(&name, &args);
                    proof {
                        assert(views(args@).len() == args@.len());
                    }
                    Step::Ran { name, args, outcome }
                },
            };
            out.push(step);
            k += 1;
        }
        out
    }
}

} // verus!
