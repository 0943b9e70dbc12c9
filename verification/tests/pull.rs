use git_core::analysis::{
    MergeAnalysis, Verdict, ANALYSIS_FASTFORWARD, ANALYSIS_NONE, ANALYSIS_NORMAL, ANALYSIS_UNBORN,
    ANALYSIS_UP_TO_DATE,
};
use git_core::config::Config;
use git_core::git::{PullResult, PullStep, Repo};

fn verdict(bits: u32) -> Option<Verdict> {
    MergeAnalysis { bits }.classify()
}

fn pull(bits: u32) -> PullStep {
    let config = Config::default();
    Repo::open(&config).pull("main", MergeAnalysis { bits }, "feedbeef".to_string())
}

#[test]
fn flags_have_the_values_of_the_engine() {
    assert_eq!(ANALYSIS_NONE, git2::MergeAnalysis::ANALYSIS_NONE.bits());
    assert_eq!(ANALYSIS_NORMAL, git2::MergeAnalysis::ANALYSIS_NORMAL.bits());
    assert_eq!(ANALYSIS_UP_TO_DATE, git2::MergeAnalysis::ANALYSIS_UP_TO_DATE.bits());
    assert_eq!(ANALYSIS_FASTFORWARD, git2::MergeAnalysis::ANALYSIS_FASTFORWARD.bits());
    assert_eq!(ANALYSIS_UNBORN, git2::MergeAnalysis::ANALYSIS_UNBORN.bits());
}

#[test]
fn single_flags_have_distinct_verdicts() {
    assert_eq!(verdict(1), Some(Verdict::Normal));
    assert_eq!(verdict(2), Some(Verdict::UpToDate));
    assert_eq!(verdict(4), Some(Verdict::FastForward));
    assert_eq!(verdict(8), Some(Verdict::Unborn));
}

#[test]
fn analysis_without_a_flag_has_no_verdict() {
    assert_eq!(verdict(0), None);
    assert_eq!(verdict(16), None);
    assert_eq!(verdict(0xffff_fff0), None);
}

#[test]
fn first_flag_in_order_decides() {
    assert_eq!(verdict(1 | 4), Some(Verdict::Normal));
    assert_eq!(verdict(1 | 2 | 4 | 8), Some(Verdict::Normal));
    assert_eq!(verdict(2 | 4), Some(Verdict::UpToDate));
    assert_eq!(verdict(2 | 8), Some(Verdict::UpToDate));
    assert_eq!(verdict(4 | 8), Some(Verdict::FastForward));
    assert_eq!(verdict(8 | 16), Some(Verdict::Unborn));
}

#[test]
fn every_analysis_of_the_engine_agrees_with_its_own_questions() {
    for bits in 0u32..32 {
        let analysis = git2::MergeAnalysis::from_bits_truncate(bits);
        let expected = if analysis.is_none() {
            Some(Verdict::NoMerge)
        } else if analysis.is_normal() {
            Some(Verdict::Normal)
        } else if analysis.is_up_to_date() {
            Some(Verdict::UpToDate)
        } else if analysis.is_fast_forward() {
            Some(Verdict::FastForward)
        } else if analysis.is_unborn() {
            Some(Verdict::Unborn)
        } else {
            None
        };
        assert_eq!(verdict(bits), expected);
        assert_ne!(verdict(bits), Some(Verdict::NoMerge));
        assert_eq!(verdict(bits) == Some(Verdict::Normal), bits & 1 != 0);
        assert_eq!(verdict(bits) == Some(Verdict::UpToDate), bits & 3 == 2);
        assert_eq!(verdict(bits) == Some(Verdict::FastForward), bits & 7 == 4);
        assert_eq!(verdict(bits) == Some(Verdict::Unborn), bits & 15 == 8);
        assert_eq!(verdict(bits).is_none(), bits & 15 == 0);
    }
}

#[test]
fn branch_that_is_up_to_date() {
    assert_eq!(pull(ANALYSIS_UP_TO_DATE), PullStep::Done(PullResult::UpToDate));
}

#[test]
fn diverged_histories_are_left_to_the_caller() {
    assert_eq!(pull(ANALYSIS_NORMAL), PullStep::Done(PullResult::Normal));
    assert_eq!(pull(ANALYSIS_NORMAL | ANALYSIS_FASTFORWARD), PullStep::Done(PullResult::Normal));
}

#[test]
fn unborn_branch() {
    assert_eq!(pull(ANALYSIS_UNBORN), PullStep::Done(PullResult::Unborn));
}

#[test]
fn fast_forward_moves_the_branch_to_the_upstream() {
    assert_eq!(
        pull(ANALYSIS_FASTFORWARD),
        PullStep::FastForward {
            target: "feedbeef".to_string(),
            log_message: "fast forward branch 'main' tip".to_string(),
        }
    );
    assert_eq!(
        pull(ANALYSIS_FASTFORWARD | ANALYSIS_UNBORN),
        PullStep::FastForward {
            target: "feedbeef".to_string(),
            log_message: "fast forward branch 'main' tip".to_string(),
        }
    );
}

#[test]
fn result_of_a_fast_forward() {
    let config = Config::default();
    let repo = Repo::open(&config);
    assert_eq!(
        repo.fast_forwarded("aaa".to_string(), "bbb".to_string()),
        PullResult::FastForwarded { old_id: "aaa".to_string(), new_id: "bbb".to_string() }
    );
}

#[test]
fn results_as_text() {
    assert_eq!(PullResult::NoMerge.to_string(), "None");
    assert_eq!(PullResult::Normal.to_string(), "Normal");
    assert_eq!(PullResult::UpToDate.to_string(), "UpToDate");
    assert_eq!(PullResult::Unborn.to_string(), "Unborn");
    assert_eq!(
        PullResult::FastForwarded { old_id: "aaa".to_string(), new_id: "bbb".to_string() }
            .to_string(),
        "FastForwarded { old_id: aaa, new_id: bbb }"
    );
}

#[test]
fn merge_does_nothing_and_succeeds() {
    let config = Config::default();
    let repo = Repo::open(&config);
    assert_eq!(repo.merge("topic", Some("main")), Ok(()));
    assert_eq!(repo.merge("topic", None), Ok(()));
}
