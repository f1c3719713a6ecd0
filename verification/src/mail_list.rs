use vstd::prelude::*;

use crate::mailing_list::{ListView, MailingList};
use crate::text::{pop_char, push_char, starts_with};

verus! {

/// The lists of `lists` whose name starts with `target`, in their order.
pub open spec fn matching(lists: Seq<ListView>, target: Seq<char>) -> Seq<ListView> {
    lists.filter(|l: ListView| target.is_prefix_of(l.name))
}

/// What a list of mailing lists is, as the contracts see it.
pub open spec fn lists_view(lists: Seq<MailingList>) -> Seq<ListView> {
    lists.map_values(|l: MailingList| l@)
}

/// The state of the mailing-list picker, as the contracts see it.
pub struct SelectionView {
    pub lists: Seq<ListView>,
    pub target: Seq<char>,
    pub possible: Seq<ListView>,
    pub highlighted: nat,
    pub path: Seq<char>,
}

impl SelectionView {
    /// The search text becomes `target`; the visible lists are those that
    /// match it, and the highlight goes back to the top.
    pub open spec fn with_target(self, target: Seq<char>) -> SelectionView {
        SelectionView {
            lists: self.lists,
            target: target,
            possible: matching(self.lists, target),
            highlighted: 0,
            path: self.path,
        }
    }

    /// The visible lists are filtered anew by the current search text.
    pub open spec fn refiltered(self) -> SelectionView {
        self.with_target(self.target)
    }

    /// A character is typed into the search bar.
    pub open spec fn after_push(self, c: char) -> SelectionView {
        self.with_target(self.target.push(c))
    }

    /// The last character of the search text is deleted, if there is one.
    pub open spec fn after_remove_last(self) -> SelectionView {
        if self.target.len() == 0 {
            self
        } else {
            self.with_target(self.target.drop_last())
        }
    }

    /// The search bar is emptied.
    pub open spec fn after_clear(self) -> SelectionView {
        self.with_target(Seq::empty())
    }

    /// The available lists are replaced and the search bar is emptied.
    pub open spec fn after_refresh(self, lists: Seq<ListView>) -> SelectionView {
        SelectionView { lists: lists, ..self }.with_target(Seq::empty())
    }

    /// The highlight moves one list down, unless it is on the last list.
    pub open spec fn after_below(self) -> SelectionView {
        if self.highlighted + 1 < self.possible.len() {
            SelectionView { highlighted: self.highlighted + 1, ..self }
        } else {
            self
        }
    }

    /// The highlight moves one list up, stopping at the top.
    pub open spec fn after_above(self) -> SelectionView {
        SelectionView {
            highlighted: if self.highlighted > 0 { (self.highlighted - 1) as nat } else { 0 },
            ..self
        }
    }

    /// The highlight is on one of the visible lists.
    pub open spec fn has_valid(self) -> bool {
        self.highlighted < self.possible.len()
    }
}

/// The screen where a mailing list is picked.
///
/// It keeps all the available lists, what was typed in the search bar, the
/// lists that match it and which of them is highlighted.
pub struct MailingListSelection {
    pub mailing_lists: Vec<MailingList>,
    pub target_list: String,
    pub possible_mailing_lists: Vec<MailingList>,
    pub highlighted_list_index: usize,
    pub mailing_lists_path: String,
}

impl View for MailingListSelection {
    type V = SelectionView;

    open spec fn view(&self) -> SelectionView {
        SelectionView {
            lists: lists_view(self.mailing_lists@),
            target: self.target_list@,
            possible: lists_view(self.possible_mailing_lists@),
            highlighted: self.highlighted_list_index as nat,
            path: self.mailing_lists_path@,
        }
    }
}

impl MailingListSelection {
    /// Takes in the lists just fetched from the archive, or the reason the
    /// fetch failed.
    ///
    /// On success the available lists become the fetched ones and the
    /// search bar is emptied, so that every list shows; on failure the
    /// reason is returned and nothing changes. Saving the lists is left to
    /// the caller.
    pub fn refresh_available_mailing_lists(
        &mut self,
        fetched: Result<Vec<MailingList>, String>,
    ) -> (r: Result<(), String>)
        ensures
            match fetched {
                Ok(lists) => r is Ok && final(self)@ == old(self)@.after_refresh(lists_view(lists@)),
                Err(e) => r == Err::<(), String>(e) && final(self)@ == old(self)@,
            },
    {
        match fetched {
            Ok(available_mailing_lists) => {
                self.mailing_lists = available_mailing_lists;
            },
            Err(failed_available_lists_request) => {
                return Err(failed_available_lists_request);
            },
        }
        self.clear_target_list();
        Ok(())
    }

    /// Deletes the last character of the search text, as Backspace does,
    /// and filters the lists anew. With an empty search text nothing changes.
    pub fn remove_last_target_list_char(&mut self)
        ensures
            final(self)@ == old(self)@.after_remove_last(),
            old(self).target_list@.len() > 0 ==> final(self).target_list@ == old(
                self,
            ).target_list@.drop_last() && final(self).highlighted_list_index == 0,
            old(self).target_list@.len() == 0 ==> final(self)@ == old(self)@,
    {
        if !self.target_list.as_str().is_empty() {
            let _ = pop_char(&mut self.target_list);
            self.process_possible_mailing_lists();
        }
    }

    /// Adds a character to the search text and filters the lists anew.
    pub fn push_char_to_target_list(&mut self, ch: char)
        ensures
            final(self)@ == old(self)@.after_push(ch),
            final(self).target_list@ == old(self).target_list@.push(ch),
            final(self).highlighted_list_index == 0,
    {
        push_char(&mut self.target_list, ch);
        self.process_possible_mailing_lists();
    }

    /// Erases the search text and filters the lists anew.
    pub fn clear_target_list(&mut self)
        ensures
            final(self)@ == old(self)@.after_clear(),
            final(self).target_list@.len() == 0,
            final(self).highlighted_list_index == 0,
    {
        self.target_list = String::new();
        self.process_possible_mailing_lists();
    }

    /// Keeps, in order, the lists whose name starts with the search text
    /// (case-sensitively), and moves the highlight to the top.
    pub fn process_possible_mailing_lists(&mut self)
        ensures
            final(self)@ == old(self)@.refiltered(),
    {
        let mut possible_mailing_lists: Vec<MailingList> = Vec::new();
        let n = self.mailing_lists.len();
        let ghost lists = lists_view(self.mailing_lists@);
        let ghost target = self.target_list@;
        for i in 0..n
            invariant
                n == self.mailing_lists.len(),
                lists == lists_view(self.mailing_lists@),
                target == self.target_list@,
                lists_view(possible_mailing_lists@) == matching(lists.take(i as int), target),
        {
            let mailing_list = &self.mailing_lists[i];
            proof {
                reveal(Seq::filter);
                assert(lists.take(i + 1).drop_last() =~= lists.take(i as int));
                assert(lists.take(i + 1).last() == mailing_list@);
            }
            if starts_with(mailing_list.name(), self.target_list.as_str()) {
                possible_mailing_lists.push(mailing_list.clone());
                assert(lists_view(possible_mailing_lists@) =~= matching(lists.take(i + 1), target));
            } else {
                assert(lists_view(possible_mailing_lists@) =~= matching(lists.take(i + 1), target));
            }
        }
        assert(lists.take(n as int) =~= lists);
        self.possible_mailing_lists = possible_mailing_lists;
        self.highlighted_list_index = 0;
    }

    /// Moves the highlight one list down, unless it is on the last list.
    pub fn highlight_below_list(&mut self)
        ensures
            final(self)@ == old(self)@.after_below(),
            old(self).highlighted_list_index <= final(self).highlighted_list_index
                <= old(self).highlighted_list_index + 1,
            old(self).highlighted_list_index + 1 >= old(self).possible_mailing_lists.len()
                ==> final(self).highlighted_list_index == old(self).highlighted_list_index,
    {
        let len = self.possible_mailing_lists.len();
        if len > 0 && self.highlighted_list_index < len - 1 {
            self.highlighted_list_index = self.highlighted_list_index + 1;
        }
    }

    /// Moves the highlight one list up, stopping at the top.
    pub fn highlight_above_list(&mut self)
        ensures
            final(self)@ == old(self)@.after_above(),
            final(self).highlighted_list_index <= old(self).highlighted_list_index,
            old(self).highlighted_list_index == 0 ==> final(self).highlighted_list_index == 0,
            old(self).highlighted_list_index > 0 ==> final(self).highlighted_list_index + 1 == old(
                self,
            ).highlighted_list_index,
    {
        self.highlighted_list_index = self.highlighted_list_index.saturating_sub(1);
    }

    /// Whether the highlight is on one of the visible lists.
    pub fn has_valid_target_list(&self) -> (r: bool)
        ensures
            r == self@.has_valid(),
            r == (self.highlighted_list_index < self.possible_mailing_lists.len()),
    {
        let list_length = self.possible_mailing_lists.len();
        let list_index = self.highlighted_list_index;
        if list_index < list_length {
            return true;
        }
        false
    }
}

} // verus!
