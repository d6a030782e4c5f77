//! Fencing and requeue lineages.
use loom::domain::fencing::FenceError;
use loom::domain::fencing::FenceVerdict;
use loom::domain::fencing::LeaseBook;
use loom::domain::fencing::LeaseGrant;
use loom::domain::ids::AttemptId;
use loom::domain::ids::AttemptNo;
use loom::domain::ids::CheckpointUri;
use loom::domain::ids::FenceToken;
use loom::domain::ids::JobId;
use loom::domain::ids::NodeId;
use loom::domain::lease::LeaseState;
use loom::domain::time::Timestamp;

fn t(millis: i64) -> Timestamp {
    Timestamp::from_millis(millis)
}

fn grant(book: &mut LeaseBook, job: &str) -> LeaseGrant {
    let n = book.attempt_no(&JobId::new(job)).map_or(1, |a| a.get() + 1);
    let attempt = AttemptId::new(format!("{job}-{n}"));
    let node = NodeId::new(format!("node-{job}-{n}"));
    let exists = book.current_fence(&JobId::new(job)).is_some();
    let result = if exists {
        book.requeue(JobId::new(job), attempt, node, t(0), t(30_000), None)
    } else {
        book.grant_initial(JobId::new(job), attempt, node, t(0), t(30_000))
    };
    match result {
        Ok(g) => g,
        Err(e) => panic!("grant failed: {}", e.to_string()),
    }
}

#[test]
fn first_grant_is_attempt_one_and_lease_is_active() {
    let mut book = LeaseBook::new();
    let g = grant(&mut book, "j");
    assert_eq!(g.attempt_no, AttemptNo::first());
    assert_eq!(g.lease.state, LeaseState::Active);
    assert_eq!(g.lease.fence, g.fence);
    assert_eq!(book.current_fence(&JobId::new("j")), Some(g.fence));
    assert_eq!(
        book.current_node(&JobId::new("j")),
        Some(NodeId::new("node-j-1"))
    );
}

#[test]
fn duplicate_initial_grant_is_rejected() {
    let mut book = LeaseBook::new();
    let job = JobId::new("j");
    let first = book.grant_initial(
        job.clone(),
        AttemptId::new("a"),
        NodeId::new("n"),
        t(0),
        t(1),
    );
    assert!(first.is_ok());
    let dup = book.grant_initial(
        job.clone(),
        AttemptId::new("b"),
        NodeId::new("m"),
        t(0),
        t(1),
    );
    assert_eq!(dup, Err(FenceError::DuplicateLineage { job }));
}

#[test]
fn requeue_without_lineage_is_rejected() {
    let mut book = LeaseBook::new();
    let job = JobId::new("ghost");
    let out = book.requeue(
        job.clone(),
        AttemptId::new("a"),
        NodeId::new("n"),
        t(0),
        t(1),
        None,
    );
    assert_eq!(out, Err(FenceError::UnknownLineage { job }));
}

#[test]
fn requeue_mints_a_strictly_greater_fence_and_fences_off_the_old_node() {
    // f=7 then f=8, stale 7 rejected.
    let mut book = LeaseBook::new();
    let job = JobId::new("j");
    let first = grant(&mut book, "j");
    let second = grant(&mut book, "j");
    assert!(
        second.fence > first.fence,
        "requeue fence must be strictly greater"
    );
    assert_eq!(second.attempt_no, AttemptNo::from_persisted(2));

    // Only the current fence is authoritative; the superseded one is fenced off.
    assert_eq!(book.check(&job, second.fence), FenceVerdict::Accept);
    assert_eq!(book.check(&job, first.fence), FenceVerdict::Stale);
    assert!(!book.check(&job, first.fence).is_accept());
}

#[test]
fn an_impossibly_high_or_unknown_fence_is_invalid() {
    let mut book = LeaseBook::new();
    let job = JobId::new("j");
    let g = grant(&mut book, "j");
    assert_eq!(
        book.check(&job, FenceToken::from_persisted(g.fence.value() + 100)),
        FenceVerdict::Invalid
    );
    assert_eq!(
        book.check(&JobId::new("other"), g.fence),
        FenceVerdict::Invalid
    );
}

#[test]
fn mark_lost_keeps_the_current_fence_authoritative_until_requeue() {
    let mut book = LeaseBook::new();
    let job = JobId::new("j");
    let g = grant(&mut book, "j");
    assert_eq!(book.is_live(&job), Some(true));
    let lost = book.mark_lost(&job);
    assert!(lost.is_ok());
    assert_eq!(book.is_live(&job), Some(false));
    // Not yet requeued: the current fence still verifies.
    assert_eq!(book.check(&job, g.fence), FenceVerdict::Accept);
}

#[test]
fn checkpoints_carry_forward_across_a_requeue() {
    let mut book = LeaseBook::new();
    let job = JobId::new("j");
    let first = grant(&mut book, "j");
    let ckpt = CheckpointUri::new("sha256:abc");
    assert!(
        book.record_checkpoint(&job, first.fence, ckpt.clone())
            .is_ok()
    );
    let _second = grant(&mut book, "j");
    assert_eq!(book.lineage_checkpoint(&job), Some(ckpt));
}

#[test]
fn record_checkpoint_rejects_a_non_current_fence() {
    let mut book = LeaseBook::new();
    let job = JobId::new("j");
    let first = grant(&mut book, "j");
    // The first attempt records a checkpoint under its (then-current) fence.
    let carried = CheckpointUri::new("sha256:from-attempt-1");
    assert!(
        book.record_checkpoint(&job, first.fence, carried.clone())
            .is_ok()
    );

    // A requeue mints a strictly greater fence; the checkpoint carries forward.
    let second = grant(&mut book, "j");
    assert!(second.fence > first.fence);
    assert_eq!(book.lineage_checkpoint(&job), Some(carried.clone()));

    // The superseded attempt, still holding the old fence, tries to overwrite the
    // carried checkpoint. It is fenced off, and the carried checkpoint is unchanged.
    let stale = CheckpointUri::new("sha256:stale-from-attempt-1");
    assert_eq!(
        book.record_checkpoint(&job, first.fence, stale),
        Err(FenceError::StaleFence {
            job: job.clone(),
            presented: first.fence,
            current: second.fence,
        })
    );
    assert_eq!(book.lineage_checkpoint(&job), Some(carried));

    // The live successor, holding the current fence, may still record.
    let next = CheckpointUri::new("sha256:from-attempt-2");
    assert!(
        book.record_checkpoint(&job, second.fence, next.clone())
            .is_ok()
    );
    assert_eq!(book.lineage_checkpoint(&job), Some(next));
}

#[test]
fn record_checkpoint_on_unknown_lineage_is_rejected() {
    let mut book = LeaseBook::new();
    let job = JobId::new("ghost");
    assert_eq!(
        book.record_checkpoint(&job, FenceToken::from_persisted(1), CheckpointUri::new("sha256:x")),
        Err(FenceError::UnknownLineage { job })
    );
}

#[test]
fn record_checkpoint_rejects_an_impossibly_high_fence_as_invalid() {
    // A fence above the current one can only be forged (the book is the sole minter),
    // so `record_checkpoint` classifies it as `InvalidFence` — distinct from a merely
    // superseded (stale, lower) fence — exactly as `check` does, and leaves the
    // lineage's carried checkpoint untouched.
    let mut book = LeaseBook::new();
    let job = JobId::new("j");
    let g = grant(&mut book, "j");
    let forged = FenceToken::from_persisted(g.fence.value() + 100);
    assert_eq!(book.check(&job, forged), FenceVerdict::Invalid);
    assert_eq!(
        book.record_checkpoint(&job, forged, CheckpointUri::new("sha256:forged")),
        Err(FenceError::InvalidFence {
            job: job.clone(),
            presented: forged,
            current: g.fence,
        })
    );
    assert_eq!(book.lineage_checkpoint(&job), None);
}

#[test]
fn fences_are_globally_unique_across_lineages() {
    let mut book = LeaseBook::new();
    let a = grant(&mut book, "a");
    let b = grant(&mut book, "b");
    let a2 = grant(&mut book, "a");
    assert_ne!(a.fence, b.fence);
    assert_ne!(b.fence, a2.fence);
    assert!(
        a.fence < b.fence && b.fence < a2.fence,
        "global counter is monotone"
    );
}

#[test]
fn complete_retires_the_lineage_and_frees_the_job_id() {
    let mut book = LeaseBook::new();
    let job = JobId::new("j");
    let g = grant(&mut book, "j");
    // The live attempt retires its own lineage.
    assert!(book.complete(&job, g.fence).is_ok());
    // The bookkeeping is gone: nothing verifies or reports state for the job.
    assert_eq!(book.check(&job, g.fence), FenceVerdict::Invalid);
    assert_eq!(book.current_fence(&job), None);
    assert_eq!(book.attempt_no(&job), None);
    // The id may be granted afresh, and the global minter still hands out a strictly
    // greater fence than the retired lineage ever held — retirement never reuses a fence.
    let Ok(reborn) = book.grant_initial(
        job.clone(),
        AttemptId::new("a2"),
        NodeId::new("n2"),
        t(0),
        t(1),
    ) else {
        panic!("job id must be free after retirement");
    };
    assert!(reborn.fence > g.fence);
}

#[test]
fn complete_is_fence_checked_against_stale_forged_and_unknown() {
    let mut book = LeaseBook::new();
    let job = JobId::new("j");
    let first = grant(&mut book, "j");
    let second = grant(&mut book, "j"); // a requeue mints a strictly greater fence
    assert!(second.fence > first.fence);

    // A superseded attempt cannot retire a lineage that has already moved on.
    assert_eq!(
        book.complete(&job, first.fence),
        Err(FenceError::StaleFence {
            job: job.clone(),
            presented: first.fence,
            current: second.fence,
        })
    );
    // A forged, impossibly-high fence is rejected as invalid — distinct from stale.
    let forged = FenceToken::from_persisted(second.fence.value() + 100);
    assert_eq!(
        book.complete(&job, forged),
        Err(FenceError::InvalidFence {
            job: job.clone(),
            presented: forged,
            current: second.fence,
        })
    );
    // An unknown lineage is rejected.
    assert_eq!(
        book.complete(&JobId::new("ghost"), first.fence),
        Err(FenceError::UnknownLineage {
            job: JobId::new("ghost")
        })
    );
    // Every rejection left the lineage intact; the live successor can still retire it.
    assert_eq!(book.check(&job, second.fence), FenceVerdict::Accept);
    assert!(book.complete(&job, second.fence).is_ok());
    assert_eq!(book.current_fence(&job), None);
}

/// Draws numbers for the interleavings below.
struct Draws(u64);

impl Draws {
    fn below(&mut self, n: u64) -> u64 {
        self.0 = self.0.wrapping_mul(6_364_136_223_846_793_005).wrapping_add(1);
        (self.0 >> 33) % n
    }
}

/// Advancing any interleaving of lineages preserves every fencing invariant.
#[test]
fn fencing_invariants_hold_under_arbitrary_interleavings() {
    const LINEAGES: usize = 4;
    for seed in 0..40 {
        let mut draws = Draws(seed);
        let mut book = LeaseBook::new();
        let jobs: Vec<JobId> = (0..LINEAGES).map(|i| JobId::new(format!("job-{i}"))).collect();
        // Every fence ever granted, per lineage, in grant order.
        let mut history: Vec<Vec<FenceToken>> = vec![Vec::new(); LINEAGES];
        let mut global_max: Option<u64> = None;

        for _ in 0..1 + draws.below(149) {
            let idx = draws.below(LINEAGES as u64) as usize;
            let job = &jobs[idx];
            let seq = history[idx].len() + 1;
            let attempt = AttemptId::new(format!("job-{idx}-att-{seq}"));
            let node = NodeId::new(format!("node-{idx}-{seq}"));
            let grant = if book.current_fence(job).is_some() {
                book.requeue(job.clone(), attempt, node, t(0), t(0), None)
            } else {
                book.grant_initial(job.clone(), attempt, node, t(0), t(0))
            };
            let grant = grant.expect("a grant");

            // Global monotonicity: the single minter only ever increases.
            if let Some(max) = global_max {
                assert!(grant.fence.value() > max, "fence not globally increasing");
            }
            global_max = Some(grant.fence.value());

            // Per-lineage strict increase: a requeue is strictly greater.
            if let Some(prev) = history[idx].last() {
                assert!(grant.fence > *prev, "requeue fence not strictly greater");
            }

            // Requeue lineage: attempt numbers are 1, 2, 3, ... with no gaps.
            let expected_no = u32::try_from(seq).unwrap_or(u32::MAX);
            assert_eq!(grant.attempt_no.get(), expected_no);
            assert_eq!(book.attempt_no(job).map(AttemptNo::get), Some(expected_no));

            history[idx].push(grant.fence);

            // No split-brain: exactly the newest fence verifies; every older fence
            // for this lineage is fenced off as stale.
            let len = history[idx].len();
            for (i, &fence) in history[idx].iter().enumerate() {
                let verdict = book.check(job, fence);
                if i + 1 == len {
                    assert_eq!(verdict, FenceVerdict::Accept);
                } else {
                    assert_eq!(verdict, FenceVerdict::Stale, "superseded fence must be stale");
                }
            }

            // Untouched lineages are unaffected by this step.
            for (other, other_job) in jobs.iter().enumerate() {
                if other == idx {
                    continue;
                }
                match history[other].last() {
                    Some(&fence) => {
                        assert_eq!(book.check(other_job, fence), FenceVerdict::Accept);
                    }
                    None => assert!(book.current_fence(other_job).is_none()),
                }
            }
        }
    }
}

#[test]
fn a_requeue_resumes_from_what_it_is_given_or_carried() {
    let mut book = LeaseBook::new();
    let job = JobId::new("j");
    let first = grant(&mut book, "j");
    let carried = CheckpointUri::new("sha256:carried");
    assert!(book.record_checkpoint(&job, first.fence, carried.clone()).is_ok());
    let given = CheckpointUri::new("sha256:given");
    let second = book
        .requeue(
            job.clone(),
            AttemptId::new("a2"),
            NodeId::new("n2"),
            t(5),
            t(9),
            Some(given.clone()),
        )
        .expect("requeue");
    assert_eq!(book.lineage_checkpoint(&job), Some(given));
    assert_eq!(second.lease.granted_at, t(5));
    assert_eq!(second.lease.expires_at, t(9));
    assert_eq!(book.current_node(&job), Some(NodeId::new("n2")));
    assert_eq!(book.is_live(&job), Some(true));
    assert!(second.clone() == second);
}

#[test]
fn losing_an_unknown_lineage_is_refused() {
    let mut book = LeaseBook::default();
    let job = JobId::new("ghost");
    assert_eq!(
        book.mark_lost(&job),
        Err(FenceError::UnknownLineage { job: job.clone() })
    );
    assert_eq!(book.is_live(&job), None);
    assert_eq!(book.current_node(&job), None);
    assert_eq!(book.lineage_checkpoint(&job), None);
}

#[test]
fn refusals_say_what_they_refuse() {
    let job = JobId::new("j");
    let lower = FenceToken::from_persisted(7);
    let higher = FenceToken::from_persisted(8);
    assert_eq!(
        FenceError::DuplicateLineage { job: job.clone() }.to_string(),
        "lineage for job j already exists"
    );
    assert_eq!(
        FenceError::UnknownLineage { job: job.clone() }.to_string(),
        "no lease lineage exists for job j"
    );
    let stale = FenceError::StaleFence { job: job.clone(), presented: lower, current: higher };
    assert_eq!(stale.to_string(), "stale fence 7 for job j; current fence is 8");
    let forged = FenceError::InvalidFence { job, presented: higher, current: lower };
    assert_eq!(forged.to_string(), "invalid fence 8 for job j; current fence is 7");
    assert_eq!(FenceError::FenceExhausted.to_string(), "fence token space exhausted");
    assert!(stale.clone() == stale && stale != forged);
}
