use vstd::prelude::*;
use crate::git::types::{views, Commit, CommitId, CommitView};

verus! {

/// The first place at which an identity stands in a list, if it stands in it.
pub open spec fn first_place(list: Seq<CommitView>, id: Seq<u8>) -> Option<int>
    decreases list.len(),
{
    if list.len() == 0 {
        None
    } else if list[0].id == id {
        Some(0)
    } else {
        match first_place(list.drop_first(), id) {
            Some(k) => Some(k + 1),
            None => None,
        }
    }
}

/// A place before which an identity does not stand, and at which it stands, is
/// its first place.
pub proof fn lemma_first_place_is(list: Seq<CommitView>, id: Seq<u8>, k: int)
    requires
        0 <= k < list.len(),
        list[k].id == id,
        forall|j: int| 0 <= j < k ==> list[j].id != id,
    ensures
        first_place(list, id) == Some(k),
    decreases list.len(),
{
    if k > 0 {
        let rest = list.drop_first();
        assert(list[0].id != id);
        assert(rest[k - 1] == list[k]);
        assert forall|j: int| 0 <= j < k - 1 implies rest[j].id != id by {
            assert(rest[j] == list[j + 1]);
        }
        lemma_first_place_is(rest, id, k - 1);
    }
}

/// An identity that stands nowhere in a list has no first place.
pub proof fn lemma_first_place_none(list: Seq<CommitView>, id: Seq<u8>)
    requires
        forall|j: int| 0 <= j < list.len() ==> list[j].id != id,
    ensures
        first_place(list, id) is None,
    decreases list.len(),
{
    if list.len() > 0 {
        let rest = list.drop_first();
        assert(list[0].id != id);
        assert forall|j: int| 0 <= j < rest.len() implies rest[j].id != id by {
            assert(rest[j] == list[j + 1]);
        }
        lemma_first_place_none(rest, id);
    }
}

/// The number of commits that a page key moves the selection by.
pub const PAGE_SIZE: usize = 10;

/// The identity of an optional identity.
pub open spec fn id_view(id: Option<CommitId>) -> Option<Seq<u8>> {
    match id {
        Some(id) => Some(id@),
        None => None,
    }
}

/// The selection after a move, where a selected commit that stands at `place`
/// moves to the place that `target` gives for it.
///
/// With nothing selected the selection becomes `fallback` in a list that is
/// not empty. A selection that is not in the list stays as it is.
pub open spec fn moved(
    list: Seq<CommitView>,
    selected: Option<Seq<u8>>,
    target: spec_fn(int) -> int,
    fallback: int,
) -> Option<Seq<u8>> {
    match selected {
        Some(id) => match first_place(list, id) {
            Some(place) => Some(list[target(place)].id),
            None => selected,
        },
        None => if list.len() == 0 {
            None
        } else {
            Some(list[fallback].id)
        },
    }
}

/// One place down, staying at the last place.
pub open spec fn step_down(len: int) -> spec_fn(int) -> int {
    |place: int|
        if place + 1 < len {
            place + 1
        } else {
            place
        }
}

/// One place up, staying at the first place.
pub open spec fn step_up() -> spec_fn(int) -> int {
    |place: int|
        if place > 0 {
            place - 1
        } else {
            place
        }
}

/// One page down, stopping at the last place.
pub open spec fn page_down(len: int) -> spec_fn(int) -> int {
    |place: int|
        if place + 10 < len {
            place + 10
        } else {
            len - 1
        }
}

/// One page up, stopping at the first place.
pub open spec fn page_up() -> spec_fn(int) -> int {
    |place: int|
        if place >= 10 {
            place - 10
        } else {
            0
        }
}

/// Which commit of the list is selected and hovered, and which rows are on
/// screen.
#[derive(Debug, Clone, Copy)]
pub struct CommitListComponent {
    selected_commit: Option<CommitId>,
    hover_commit: Option<CommitId>,
    visible_range: (usize, usize),
}

fn find_place(commits: &[Commit], id: &CommitId) -> (r: Option<usize>)
    ensures
        match r {
            Some(k) => k < commits@.len() && first_place(views(commits@), id@) == Some(k as int),
            None => first_place(views(commits@), id@) is None,
        },
{
    let mut i: usize = 0;
    while i < commits.len()
        invariant
            i <= commits@.len(),
            forall|j: int| 0 <= j < i ==> views(commits@)[j].id != id@,
        decreases commits@.len() - i,
    {
        if commits[i].id.same(id) {
            proof {
                lemma_first_place_is(views(commits@), id@, i as int);
            }
            return Some(i);
        }
        i = i + 1;
    }
    proof {
        lemma_first_place_none(views(commits@), id@);
    }
    None
}

impl CommitListComponent {
    /// The selected commit.
    pub closed spec fn selection(&self) -> Option<Seq<u8>> {
        id_view(self.selected_commit)
    }

    /// The hovered commit.
    pub closed spec fn hovered(&self) -> Option<Seq<u8>> {
        id_view(self.hover_commit)
    }

    /// The rows on screen: the first, and the one after the last.
    pub closed spec fn rows(&self) -> (usize, usize) {
        self.visible_range
    }

    /// A list with nothing selected, nothing hovered and no row on screen.
    pub fn new() -> (r: CommitListComponent)
        ensures
            r.selection() is None,
            r.hovered() is None,
            r.rows() == (0usize, 0usize),
    {
        CommitListComponent { selected_commit: None, hover_commit: None, visible_range: (0, 0) }
    }

    /// The selected commit.
    pub fn selected_commit(&self) -> (r: Option<CommitId>)
        ensures
            id_view(r) == self.selection(),
    {
        self.selected_commit
    }

    /// The hovered commit.
    pub fn hover_commit(&self) -> (r: Option<CommitId>)
        ensures
            id_view(r) == self.hovered(),
    {
        self.hover_commit
    }

    /// Selects a commit, or nothing.
    pub fn set_selected_commit(&mut self, commit_id: Option<CommitId>)
        ensures
            final(self).selection() == id_view(commit_id),
            final(self).hovered() == old(self).hovered(),
            final(self).rows() == old(self).rows(),
    {
        self.selected_commit = commit_id;
    }

    /// Hovers over a commit, or over nothing.
    pub fn set_hover_commit(&mut self, commit_id: Option<CommitId>)
        ensures
            final(self).hovered() == id_view(commit_id),
            final(self).selection() == old(self).selection(),
            final(self).rows() == old(self).rows(),
    {
        self.hover_commit = commit_id;
    }

    /// Records which rows are on screen.
    pub fn set_visible_range(&mut self, first: usize, end: usize)
        ensures
            final(self).rows() == (first, end),
            final(self).selection() == old(self).selection(),
            final(self).hovered() == old(self).hovered(),
    {
        self.visible_range = (first, end);
    }

    /// Drops the selection and the hover.
    pub fn clear_selection(&mut self)
        ensures
            final(self).selection() is None,
            final(self).hovered() is None,
            final(self).rows() == old(self).rows(),
    {
        self.selected_commit = None;
        self.hover_commit = None;
    }

    /// The rows on screen.
    pub fn get_visible_range(&self) -> (r: (usize, usize))
        ensures
            r == self.rows(),
    {
        self.visible_range
    }

    /// Moves the selection one commit down, or selects the first commit where
    /// nothing is selected.
    pub fn select_next(&mut self, commits: &[Commit])
        ensures
            final(self).selection() == moved(
                views(commits@),
                old(self).selection(),
                step_down(commits@.len() as int),
                0,
            ),
            final(self).hovered() == old(self).hovered(),
            final(self).rows() == old(self).rows(),
    {
        match self.selected_commit {
            Some(current) => match find_place(commits, &current) {
                Some(place) => {
                    if place < commits.len() - 1 {
                        self.selected_commit = Some(commits[place + 1].id);
                    } else {
                        self.selected_commit = Some(commits[place].id);
                    }
                },
                None => {},
            },
            None => {
                if commits.len() > 0 {
                    self.selected_commit = Some(commits[0].id);
                }
            },
        }
    }

    /// Moves the selection one commit up, or selects the last commit where
    /// nothing is selected.
    pub fn select_previous(&mut self, commits: &[Commit])
        ensures
            final(self).selection() == moved(
                views(commits@),
                old(self).selection(),
                step_up(),
                commits@.len() - 1,
            ),
            final(self).hovered() == old(self).hovered(),
            final(self).rows() == old(self).rows(),
    {
        match self.selected_commit {
            Some(current) => match find_place(commits, &current) {
                Some(place) => {
                    if place > 0 {
                        self.selected_commit = Some(commits[place - 1].id);
                    } else {
                        self.selected_commit = Some(commits[place].id);
                    }
                },
                None => {},
            },
            None => {
                if commits.len() > 0 {
                    self.selected_commit = Some(commits[commits.len() - 1].id);
                }
            },
        }
    }

    /// Selects the first commit of a list that is not empty.
    pub fn select_first(&mut self, commits: &[Commit])
        ensures
            final(self).selection() == if commits@.len() == 0 {
                old(self).selection()
            } else {
                Some(views(commits@)[0].id)
            },
            final(self).hovered() == old(self).hovered(),
            final(self).rows() == old(self).rows(),
    {
        if commits.len() > 0 {
            self.selected_commit = Some(commits[0].id);
        }
    }

    /// Selects the last commit of a list that is not empty.
    pub fn select_last(&mut self, commits: &[Commit])
        ensures
            final(self).selection() == if commits@.len() == 0 {
                old(self).selection()
            } else {
                Some(views(commits@)[commits@.len() - 1].id)
            },
            final(self).hovered() == old(self).hovered(),
            final(self).rows() == old(self).rows(),
    {
        if commits.len() > 0 {
            self.selected_commit = Some(commits[commits.len() - 1].id);
        }
    }

    /// Moves the selection ten commits down, stopping at the last, or selects
    /// the first commit where nothing is selected.
    pub fn select_page_down(&mut self, commits: &[Commit])
        ensures
            final(self).selection() == moved(
                views(commits@),
                old(self).selection(),
                page_down(commits@.len() as int),
                0,
            ),
            final(self).hovered() == old(self).hovered(),
            final(self).rows() == old(self).rows(),
    {
        match self.selected_commit {
            Some(current) => match find_place(commits, &current) {
                Some(place) => {
                    let last = commits.len() - 1;
                    let target = if last - place > PAGE_SIZE {
                        place + PAGE_SIZE
                    } else {
                        last
                    };
                    self.selected_commit = Some(commits[target].id);
                },
                None => {},
            },
            None => {
                if commits.len() > 0 {
                    self.selected_commit = Some(commits[0].id);
                }
            },
        }
    }

    /// Moves the selection ten commits up, stopping at the first, or selects
    /// the last commit where nothing is selected.
    pub fn select_page_up(&mut self, commits: &[Commit])
        ensures
            final(self).selection() == moved(
                views(commits@),
                old(self).selection(),
                page_up(),
                commits@.len() - 1,
            ),
            final(self).hovered() == old(self).hovered(),
            final(self).rows() == old(self).rows(),
    {
        match self.selected_commit {
            Some(current) => match find_place(commits, &current) {
                Some(place) => {
                    let target = if place >= PAGE_SIZE {
                        place - PAGE_SIZE
                    } else {
                        0
                    };
                    self.selected_commit = Some(commits[target].id);
                },
                None => {},
            },
            None => {
                if commits.len() > 0 {
                    self.selected_commit = Some(commits[commits.len() - 1].id);
                }
            },
        }
    }
}

/// What happened to the list in one frame.
#[derive(Debug, Clone, Copy)]
pub struct CommitListResponse {
    pub selected: Option<CommitId>,
    pub clicked: Option<CommitId>,
    pub double_clicked: Option<CommitId>,
}

impl CommitListResponse {
    /// Whether the selection differs from an earlier one.
    pub fn has_selection_changed(&self, previous_selection: Option<CommitId>) -> (r: bool)
        ensures
            r == (id_view(self.selected) != id_view(previous_selection)),
    {
        match (self.selected, previous_selection) {
            (Some(a), Some(b)) => !a.same(&b),
            (None, None) => false,
            _ => true,
        }
    }

    /// Whether a commit was clicked.
    pub fn was_clicked(&self) -> (r: bool)
        ensures
            r == self.clicked is Some,
    {
        self.clicked.is_some()
    }

    /// Whether a commit was double-clicked.
    pub fn was_double_clicked(&self) -> (r: bool)
        ensures
            r == self.double_clicked is Some,
    {
        self.double_clicked.is_some()
    }
}

/// The navigation keys that were pressed in one frame.
#[derive(Debug, Clone, Copy, PartialEq, Eq, Structural)]
pub struct KeysPressed {
    pub arrow_down: bool,
    pub arrow_up: bool,
    pub home: bool,
    pub end: bool,
    pub page_down: bool,
    pub page_up: bool,
}

/// A selection after a move that is made only where its key was pressed.
pub open spec fn when_pressed(
    pressed: bool,
    moved_to: Option<Seq<u8>>,
    selected: Option<Seq<u8>>,
) -> Option<Seq<u8>> {
    if pressed {
        moved_to
    } else {
        selected
    }
}

/// The selection after the keys of one frame, which act in the order down, up,
/// home, end, page down, page up.
pub open spec fn after_keys(list: Seq<CommitView>, selected: Option<Seq<u8>>, keys: KeysPressed) -> Option<
    Seq<u8>,
> {
    let len = list.len() as int;
    let s1 = when_pressed(keys.arrow_down, moved(list, selected, step_down(len), 0), selected);
    let s2 = when_pressed(keys.arrow_up, moved(list, s1, step_up(), len - 1), s1);
    let s3 = when_pressed(keys.home, Some(list[0].id), s2);
    let s4 = when_pressed(keys.end, Some(list[len - 1].id), s3);
    let s5 = when_pressed(keys.page_down, moved(list, s4, page_down(len), 0), s4);
    when_pressed(keys.page_up, moved(list, s5, page_up(), len - 1), s5)
}

impl KeysPressed {
    /// Whether any navigation key was pressed.
    pub fn any(&self) -> (r: bool)
        ensures
            r == (self.arrow_down || self.arrow_up || self.home || self.end || self.page_down
                || self.page_up),
    {
        self.arrow_down || self.arrow_up || self.home || self.end || self.page_down
            || self.page_up
    }
}

impl CommitListComponent {
    /// Acts on the navigation keys of one frame and says whether any was
    /// pressed. On an empty list nothing happens.
    pub fn handle_keyboard(&mut self, keys: KeysPressed, commits: &[Commit]) -> (r: bool)
        ensures
            r == (commits@.len() > 0 && (keys.arrow_down || keys.arrow_up || keys.home || keys.end
                || keys.page_down || keys.page_up)),
            final(self).selection() == if commits@.len() == 0 {
                old(self).selection()
            } else {
                after_keys(views(commits@), old(self).selection(), keys)
            },
            final(self).hovered() == old(self).hovered(),
            final(self).rows() == old(self).rows(),
    {
        if commits.len() == 0 {
            return false;
        }
        if keys.arrow_down {
            self.select_next(commits);
        }
        if keys.arrow_up {
            self.select_previous(commits);
        }
        if keys.home {
            self.select_first(commits);
        }
        if keys.end {
            self.select_last(commits);
        }
        if keys.page_down {
            self.select_page_down(commits);
        }
        if keys.page_up {
            self.select_page_up(commits);
        }
        keys.any()
    }
}

} // verus!
