use vstd::prelude::*;

verus! {

/// The stage of one resolution. Stages are tried in the order in which they
/// are declared; `End` means that no stage is left.
#[derive(Clone, Copy, Debug, PartialEq, Eq, Structural)]
pub enum NextResolveStep {
    UserData,
    RootData,
    Glob,
    NotFound,
    End,
}

impl NextResolveStep {
    /// Position of the stage in the fixed order.
    pub open spec fn rank(self) -> nat {
        match self {
            NextResolveStep::UserData => 0,
            NextResolveStep::RootData => 1,
            NextResolveStep::Glob => 2,
            NextResolveStep::NotFound => 3,
            NextResolveStep::End => 4,
        }
    }

    pub open spec fn spec_next(self) -> NextResolveStep {
        match self {
            NextResolveStep::UserData => NextResolveStep::RootData,
            NextResolveStep::RootData => NextResolveStep::Glob,
            NextResolveStep::Glob => NextResolveStep::NotFound,
            _ => NextResolveStep::End,
        }
    }

    /// The stage that follows this one; `End` stays `End`.
    pub fn next(&self) -> (r: NextResolveStep)
        ensures
            r == self.spec_next(),
    {
        match self {
            NextResolveStep::UserData => NextResolveStep::RootData,
            NextResolveStep::RootData => NextResolveStep::Glob,
            NextResolveStep::Glob => NextResolveStep::NotFound,
            NextResolveStep::NotFound => NextResolveStep::End,
            NextResolveStep::End => NextResolveStep::End,
        }
    }
}

/// The stages in their order, `End` last.
pub open spec fn stage_order() -> Seq<NextResolveStep> {
    seq![
        NextResolveStep::UserData,
        NextResolveStep::RootData,
        NextResolveStep::Glob,
        NextResolveStep::NotFound,
        NextResolveStep::End,
    ]
}

/// The stage reached from `s` after `n` advances.
pub open spec fn advanced(s: NextResolveStep, n: nat) -> NextResolveStep
    decreases n,
{
    if n == 0 {
        s
    } else {
        advanced(s, (n - 1) as nat).spec_next()
    }
}

/// The stages seen while advancing `n` times from `UserData`, the start included.
pub open spec fn trace(n: nat) -> Seq<NextResolveStep> {
    Seq::new(n + 1, |i: int| advanced(NextResolveStep::UserData, i as nat))
}

/// Advancing from `UserData` walks the fixed order and never goes back: after
/// `n` advances the observed stages are the first `n + 1` of
/// `[UserData, RootData, Glob, NotFound, End]` (all of it once `End` is
/// reached, which is then kept), each advance before `End` raises the rank by
/// exactly one, and no stage before `End` is seen twice.
pub proof fn lemma_steps_only_advance(n: nat)
    ensures
        n <= 4 ==> trace(n) == stage_order().take(n as int + 1),
        n >= 4 ==> advanced(NextResolveStep::UserData, n) == NextResolveStep::End,
        forall|i: nat|
            i < 4 ==> #[trigger] advanced(NextResolveStep::UserData, i + 1).rank()
                == advanced(NextResolveStep::UserData, i).rank() + 1,
        forall|i: nat, j: nat|
            i < j <= n && #[trigger] advanced(NextResolveStep::UserData, i) != NextResolveStep::End
                ==> advanced(NextResolveStep::UserData, i) != #[trigger] advanced(
                NextResolveStep::UserData,
                j,
            ),
    decreases n,
{
    lemma_advanced_rank(n);
    assert forall|i: nat| i < 4 implies #[trigger] advanced(NextResolveStep::UserData, i + 1).rank()
        == advanced(NextResolveStep::UserData, i).rank() + 1 by {
        lemma_advanced_rank(i);
        lemma_advanced_rank(i + 1);
    }
    assert forall|i: nat, j: nat|
        i < j <= n && #[trigger] advanced(NextResolveStep::UserData, i) != NextResolveStep::End
            implies advanced(NextResolveStep::UserData, i) != #[trigger] advanced(
            NextResolveStep::UserData,
            j,
        ) by {
        lemma_advanced_rank(i);
        lemma_advanced_rank(j);
    }
    if n <= 4 {
        assert forall|i: int| 0 <= i < n + 1 implies #[trigger] trace(n)[i] == stage_order().take(
            n as int + 1,
        )[i] by {
            lemma_advanced_rank(i as nat);
        }
        assert(trace(n) =~= stage_order().take(n as int + 1));
    }
}

/// After `n` advances from `UserData` the rank is `n`, up to `End`'s.
proof fn lemma_advanced_rank(n: nat)
    ensures
        advanced(NextResolveStep::UserData, n).rank() == if n < 4 { n } else { 4 },
        n < 4 ==> advanced(NextResolveStep::UserData, n) == stage_order()[n as int],
        n >= 4 ==> advanced(NextResolveStep::UserData, n) == NextResolveStep::End,
    decreases n,
{
    if n > 0 {
        lemma_advanced_rank((n - 1) as nat);
    }
}

} // verus!
