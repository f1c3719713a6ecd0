use patch_hub::{MailingList, MailingListSelection};

fn selection(
    mailing_lists: Vec<MailingList>,
    target_list: &str,
    possible_mailing_lists: Vec<MailingList>,
    highlighted_list_index: usize,
) -> MailingListSelection {
    MailingListSelection {
        mailing_lists,
        target_list: target_list.to_string(),
        possible_mailing_lists,
        highlighted_list_index,
        mailing_lists_path: "".to_string(),
    }
}

#[test]
fn test_remove_last_target_list_char_empty_target_list() {
    let possible_mailing_lists = vec![MailingList::new("mailing list", "")];
    let highlighted_list_index = 9;
    let mut selection = MailingListSelection {
        mailing_lists: vec![],
        target_list: "".to_string(),
        possible_mailing_lists: possible_mailing_lists.clone(),
        highlighted_list_index,
        mailing_lists_path: "".to_string(),
    };

    selection.remove_last_target_list_char();

    // nothing changes
    assert!(selection.target_list.is_empty());
    assert_eq!(selection.possible_mailing_lists, possible_mailing_lists);
    assert_eq!(selection.highlighted_list_index, highlighted_list_index);
}

#[test]
fn test_remove_last_target_list_char_non_empty_target_list() {
    let mailing_lists = vec![
        MailingList::new("target", ""),
        MailingList::new("non target", ""),
    ];
    let highlighted_list_index = 9;
    let mut selection = MailingListSelection {
        mailing_lists: mailing_lists.clone(),
        target_list: "target".to_string(),
        possible_mailing_lists: vec![],
        highlighted_list_index,
        mailing_lists_path: "".to_string(),
    };

    selection.remove_last_target_list_char();

    assert_eq!(selection.target_list, "targe".to_string());
    assert_eq!(
        selection.possible_mailing_lists,
        vec![mailing_lists[0].clone()]
    );
    assert_eq!(selection.highlighted_list_index, 0);
}

#[test]
fn test_push_char_to_target_list() {
    let mailing_lists = vec![
        MailingList::new("target", ""),
        MailingList::new("non target", ""),
    ];
    let mut selection = MailingListSelection {
        mailing_lists: mailing_lists.clone(),
        target_list: "targe".to_string(),
        possible_mailing_lists: vec![],
        highlighted_list_index: 2,
        mailing_lists_path: "".to_string(),
    };

    selection.push_char_to_target_list('t');
    assert_eq!(selection.target_list, "target".to_string());
    assert_eq!(
        selection.possible_mailing_lists,
        vec![mailing_lists[0].clone()]
    );
    assert_eq!(selection.highlighted_list_index, 0);
}

#[test]
fn test_clear_target_list() {
    let mut selection = MailingListSelection {
        mailing_lists: vec![],
        target_list: "some value".to_string(),
        possible_mailing_lists: vec![MailingList::new("match", "")],
        highlighted_list_index: 3,
        mailing_lists_path: "".to_string(),
    };

    selection.clear_target_list();
    assert_eq!(selection.target_list, "");
    assert_eq!(selection.highlighted_list_index, 0);
    assert!(selection.possible_mailing_lists.is_empty());
}

struct TestCase {
    mailing_lists: Vec<MailingList>,
    target_list: &'static str,
    highlighted_list_index: usize,
    expected_possible_mailing_lists: Vec<MailingList>,
    test_name: &'static str,
}

#[test]
fn test_process_possible_mailing_lists() {
    let test_cases = vec![
        TestCase {
            mailing_lists: vec![],
            target_list: "",
            highlighted_list_index: 0,
            expected_possible_mailing_lists: vec![],
            test_name: "everything empty",
        },
        TestCase {
            mailing_lists: vec![],
            target_list: "",
            highlighted_list_index: 9,
            expected_possible_mailing_lists: vec![],
            test_name: "empty mailing and target list and custom list index",
        },
        TestCase {
            mailing_lists: vec![],
            target_list: "target",
            highlighted_list_index: 0,
            expected_possible_mailing_lists: vec![],
            test_name: "not empty target list, but empty mailing list",
        },
        {
            let mailing_list = MailingList::new("target", "");
            TestCase {
                mailing_lists: vec![mailing_list.clone()],
                target_list: "target",
                highlighted_list_index: 0,
                expected_possible_mailing_lists: vec![mailing_list],
                test_name: "mailing list with name = target_list",
            }
        },
        {
            let mailing_list = MailingList::new("Target", "");
            TestCase {
                mailing_lists: vec![mailing_list.clone()],
                target_list: "target",
                highlighted_list_index: 0,
                expected_possible_mailing_lists: vec![],
                test_name: "match should be case sensitive",
            }
        },
        {
            let mailing_list_1 = MailingList::new("targetSUFIX", "");
            let mailing_list_2 = MailingList::new("target suffix", "");
            TestCase {
                mailing_lists: vec![mailing_list_1.clone(), mailing_list_2.clone()],
                target_list: "target",
                highlighted_list_index: 2, // this will be changed to 0
                expected_possible_mailing_lists: vec![mailing_list_1, mailing_list_2],
                test_name: "two valid mailing lists",
            }
        },
        {
            let invalid_mailing_list_1 = MailingList::new("PREFIXtarget", "");
            let invalid_mailing_list_2 = MailingList::new("PREFIX target", "");
            let invalid_mailing_list_3 = MailingList::new("Target", "");
            TestCase {
                mailing_lists: vec![
                    invalid_mailing_list_1,
                    invalid_mailing_list_2,
                    invalid_mailing_list_3,
                ],
                target_list: "target",
                highlighted_list_index: 0,
                expected_possible_mailing_lists: vec![],
                test_name: "invalida mailing lists",
            }
        },
    ];

    for test_case in test_cases {
        let mut mailing_list_selection = MailingListSelection {
            mailing_lists: test_case.mailing_lists,
            target_list: test_case.target_list.to_string(),
            possible_mailing_lists: vec![],
            highlighted_list_index: test_case.highlighted_list_index,
            mailing_lists_path: "".to_string(),
        };

        mailing_list_selection.process_possible_mailing_lists();
        let possible_mailing_lists = mailing_list_selection.possible_mailing_lists;
        assert_eq!(
            possible_mailing_lists, test_case.expected_possible_mailing_lists,
            "Failed possible_mailing_lists assert for test: {}",
            test_case.test_name
        );

        let highlighted_list_index = mailing_list_selection.highlighted_list_index;
        let expected_highlighted_list_index = 0;
        assert_eq!(highlighted_list_index, expected_highlighted_list_index);
    }
}

#[test]
fn test_highlight_below_list() {
    let possible_mailing_lists = vec![
        MailingList::new("some-list", ""),
        MailingList::new("some-list-2", ""),
    ];
    let mut selection = MailingListSelection {
        mailing_lists: vec![],
        target_list: "".to_string(),
        possible_mailing_lists,
        highlighted_list_index: 0,
        mailing_lists_path: "".to_string(),
    };

    selection.highlight_below_list();
    assert_eq!(selection.highlighted_list_index, 1);

    // should not increment beyond the end
    selection.highlight_below_list();
    assert_eq!(selection.highlighted_list_index, 1);
}

#[test]
fn test_highlight_above_list() {
    let mailing_list = MailingList::new("some-list", "");
    let mut selection = MailingListSelection {
        mailing_lists: vec![],
        target_list: "".to_string(),
        possible_mailing_lists: vec![mailing_list.clone(), mailing_list.clone()],
        highlighted_list_index: 2,
        mailing_lists_path: "".to_string(),
    };

    selection.highlight_above_list();
    assert_eq!(selection.highlighted_list_index, 1);

    selection.highlight_above_list();
    assert_eq!(selection.highlighted_list_index, 0);

    // Should not go negative (saturating_sub)
    selection.highlight_above_list();
    assert_eq!(selection.highlighted_list_index, 0);
}

#[test]
fn test_has_valid_target_list() {
    let mailing_list = MailingList::new("some-list", "");
    let selection_valid = MailingListSelection {
        mailing_lists: vec![],
        target_list: "".to_string(),
        possible_mailing_lists: vec![mailing_list.clone()],
        highlighted_list_index: 0,
        mailing_lists_path: "".to_string(),
    };
    assert!(selection_valid.has_valid_target_list());

    let selection_invalid = MailingListSelection {
        mailing_lists: vec![],
        target_list: "".to_string(),
        possible_mailing_lists: vec![mailing_list.clone()],
        highlighted_list_index: 5, // Out of bounds
        mailing_lists_path: "".to_string(),
    };
    assert!(!selection_invalid.has_valid_target_list());
}

// Scenarios and laws on concrete values.

fn lists() -> Vec<MailingList> {
    vec![
        MailingList::new("linux-kernel", "LKML"),
        MailingList::new("linux-mm", "memory"),
        MailingList::new("netdev", "networking"),
        MailingList::new("linux-block", "block layer"),
    ]
}

#[test]
fn push_narrows_to_matching_lists_in_order() {
    let all = lists();
    let mut s = selection(all.clone(), "linux-", vec![], 3);
    s.push_char_to_target_list('b');
    assert_eq!(s.target_list, "linux-b");
    assert_eq!(s.possible_mailing_lists, vec![all[3].clone()]);
    assert_eq!(s.highlighted_list_index, 0);
}

#[test]
fn process_keeps_list_order() {
    let all = lists();
    let mut s = selection(all.clone(), "linux", vec![], 1);
    s.process_possible_mailing_lists();
    assert_eq!(
        s.possible_mailing_lists,
        vec![all[0].clone(), all[1].clone(), all[3].clone()]
    );
}

#[test]
fn push_then_remove_restores_target_and_lists() {
    let all = lists();
    let mut s = selection(all.clone(), "linux-m", vec![], 0);
    s.process_possible_mailing_lists();
    let before = s.possible_mailing_lists.clone();
    s.highlight_below_list();
    s.push_char_to_target_list('z');
    assert!(s.possible_mailing_lists.is_empty());
    assert!(!s.has_valid_target_list());
    s.remove_last_target_list_char();
    assert_eq!(s.target_list, "linux-m");
    assert_eq!(s.possible_mailing_lists, before);
    assert_eq!(s.highlighted_list_index, 0);
}

#[test]
fn clear_shows_every_list() {
    let all = lists();
    let mut s = selection(all.clone(), "net", vec![], 2);
    s.clear_target_list();
    assert_eq!(s.target_list, "");
    assert_eq!(s.possible_mailing_lists, all);
    assert_eq!(s.highlighted_list_index, 0);
}

#[test]
fn remove_on_non_ascii_target_drops_one_character() {
    let all = vec![MailingList::new("ünïcode", ""), MailingList::new("ü", "")];
    let mut s = selection(all.clone(), "ünï", vec![], 0);
    s.remove_last_target_list_char();
    assert_eq!(s.target_list, "ün");
    assert_eq!(s.possible_mailing_lists, vec![all[0].clone()]);
}

#[test]
fn below_then_above_returns() {
    let all = lists();
    let mut s = selection(all.clone(), "", all.clone(), 1);
    s.highlight_below_list();
    assert_eq!(s.highlighted_list_index, 2);
    s.highlight_above_list();
    assert_eq!(s.highlighted_list_index, 1);
}

#[test]
fn below_on_empty_and_out_of_range_does_nothing() {
    let mut s = selection(vec![], "", vec![], 0);
    s.highlight_below_list();
    assert_eq!(s.highlighted_list_index, 0);
    let mut s = selection(vec![], "", lists(), usize::MAX);
    s.highlight_below_list();
    assert_eq!(s.highlighted_list_index, usize::MAX);
    assert!(!s.has_valid_target_list());
}

#[test]
fn navigation_keeps_highlight_valid() {
    let mut s = selection(vec![], "", lists(), 3);
    assert!(s.has_valid_target_list());
    s.highlight_below_list();
    assert!(s.has_valid_target_list());
    assert_eq!(s.highlighted_list_index, 3);
    s.highlight_above_list();
    assert!(s.has_valid_target_list());
}

#[test]
fn refresh_with_fetched_lists_shows_them_all() {
    let mut s = selection(lists(), "net", vec![], 1);
    let fetched = vec![MailingList::new("rust-for-linux", "Rust"), MailingList::new("bpf", "")];
    let r = s.refresh_available_mailing_lists(Ok(fetched.clone()));
    assert_eq!(r, Ok(()));
    assert_eq!(s.mailing_lists, fetched);
    assert_eq!(s.target_list, "");
    assert_eq!(s.possible_mailing_lists, fetched);
    assert_eq!(s.highlighted_list_index, 0);
}

#[test]
fn refresh_failure_changes_nothing() {
    let all = lists();
    let mut s = selection(all.clone(), "net", vec![all[2].clone()], 0);
    let r = s.refresh_available_mailing_lists(Err("timed out".to_string()));
    assert_eq!(r, Err("timed out".to_string()));
    assert_eq!(s.mailing_lists, all);
    assert_eq!(s.target_list, "net");
    assert_eq!(s.possible_mailing_lists, vec![all[2].clone()]);
}

#[test]
fn mailing_list_accessors() {
    let l = MailingList::new("netdev", "networking");
    assert_eq!(l.name(), "netdev");
    assert_eq!(l.description(), "networking");
    assert_eq!(l.clone(), l);
}
