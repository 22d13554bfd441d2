use terraform_zap::filter::{filter_targets, interleave_targets};
use terraform_zap::ignore::Ignore;

#[test]
fn test_target_interleave_1() {
    let targets = vec![];
    let reference: [&str; 0] = [];

    assert_eq!(&reference, interleave_targets(&targets).as_slice());
}

#[test]
fn test_target_interleave_2() {
    let targets = vec!["A".to_owned()];

    assert_eq!(&["-target", "A"], interleave_targets(&targets).as_slice());
}

#[test]
fn test_target_interleave_3() {
    let targets = vec!["A".to_owned(), "B".to_owned(), "C".to_owned()];

    assert_eq!(
        &["-target", "A", "-target", "B", "-target", "C"],
        interleave_targets(&targets).as_slice()
    );
}

#[test]
fn test_filter_exact_removes_matches_in_order() {
    let targets = vec![
        "aws_instance.a".to_owned(),
        "aws_instance.b".to_owned(),
        "aws_instance.c".to_owned(),
    ];
    let rules = Some(Ignore::Exact {
        exact: vec!["aws_instance.b".to_owned()],
    });

    let kept = filter_targets(targets, &rules);

    assert_eq!(&["aws_instance.a", "aws_instance.c"], kept.as_slice());
}

#[test]
fn test_filter_exact_is_exact_match_only() {
    let targets = vec!["aws_instance.ab".to_owned(), "aws_instance.a".to_owned()];
    let rules = Some(Ignore::Exact {
        exact: vec!["aws_instance.a".to_owned()],
    });

    let kept = filter_targets(targets, &rules);

    assert_eq!(&["aws_instance.ab"], kept.as_slice());
}

#[test]
fn test_filter_without_rules_keeps_everything() {
    let targets = vec!["a.b".to_owned(), "x.y".to_owned()];

    let kept = filter_targets(targets.clone(), &None);

    assert_eq!(targets, kept);
}

#[test]
fn test_filter_empty_exclusions_keep_everything() {
    let targets = vec!["a.b".to_owned(), "x.y".to_owned()];
    let rules = Some(Ignore::Exact { exact: vec![] });

    let kept = filter_targets(targets.clone(), &rules);

    assert_eq!(targets, kept);
}
