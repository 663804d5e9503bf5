//! The user's presets.
use vstd::prelude::*;
use vstd::string::StringExecFns;
use crate::filters::key::StackEntry;
use crate::filters::params::FilterParams;
use crate::filters::presets::FilterPreset;
use crate::filters::studio::FilterStudioState;
use crate::text::{same_text, trim, trimmed};

verus! {

pub open spec fn status_text(s: Option<String>) -> Option<Seq<char>> {
    match s {
        Some(t) => Some(t@),
        None => None,
    }
}

/// A name between guillemets after a word.
pub open spec fn quoted(word: Seq<char>, name: Seq<char>) -> Seq<char> {
    word + name + "»"@
}

fn quote(word: &str, name: &str) -> (r: String)
    ensures
        r@ == quoted(word@, name@),
{
    let mut out = String::new();
    out.append(word);
    out.append(name);
    out.append("»");
    assert(out@ =~= quoted(word@, name@));
    out
}

/// Whether a stack has these filters, in order, with nothing unfolded.
pub open spec fn stacked(stack: Seq<StackEntry>, params: Seq<FilterParams>) -> bool {
    &&& stack.len() == params.len()
    &&& forall|i: int|
        0 <= i < stack.len() ==> params[i].same((#[trigger] stack[i]).params)
            && !stack[i].advanced_open
}

/// Whether a preset holds the filters of a stack.
pub open spec fn holds_stack(preset: FilterPreset, stack: Seq<StackEntry>) -> bool {
    &&& preset.stack@.len() == stack.len()
    &&& forall|i: int|
        0 <= i < stack.len() ==> stack[i].params.same(#[trigger] preset.stack@[i])
}

/// The first preset of that name, or the list's length.
pub open spec fn preset_place(list: Seq<FilterPreset>, name: Seq<char>) -> int
    decreases list.len(),
{
    if list.len() == 0 {
        0
    } else if list[0].name@ == name {
        0
    } else {
        1 + preset_place(list.drop_first(), name)
    }
}

fn find_preset(list: &Vec<FilterPreset>, name: &str) -> (r: usize)
    ensures
        r == preset_place(list@, name@),
        r <= list.len(),
{
    let n: usize = list.len();
    let mut i: usize = 0;
    assert(list@.skip(0) =~= list@);
    while i < n && !same_text(list[i].name.as_str(), name)
        invariant
            i <= n,
            n == list.len(),
            preset_place(list@, name@) == i + preset_place(list@.skip(i as int), name@),
        decreases n - i,
    {
        assert(list@.skip(i as int).drop_first() =~= list@.skip(i + 1));
        i += 1;
    }
    i
}

impl FilterStudioState {
    /// Replaces the stack by a preset's and selects its first filter.
    pub fn apply_preset(&mut self, preset: &FilterPreset)
        ensures
            stacked(final(self).stack@, preset.stack@),
            final(self).selected == (if preset.stack@.len() == 0 {
                None
            } else {
                Some(0usize)
            }),
            final(self).preview.stale_of(old(self).preview, None),
            status_text(final(self).shelf.status) == Some(quoted("Loaded «"@, preset.name@)),
            !final(self).shelf.popup,
            final(self).shelf.user == old(self).shelf.user,
            final(self).shelf.name_buf == old(self).shelf.name_buf,
            final(self).same_frame(*old(self)),
            old(self).wf() ==> final(self).wf(),
    {
        let n: usize = preset.stack.len();
        let mut stack: Vec<StackEntry> = Vec::new();
        let mut i: usize = 0;
        while i < n
            invariant
                i <= n,
                n == preset.stack.len(),
                stack.len() == i,
                forall|j: int|
                    0 <= j < i ==> preset.stack@[j].same((#[trigger] stack@[j]).params)
                        && !stack@[j].advanced_open,
            decreases n - i,
        {
            stack.push(StackEntry { params: preset.stack[i].copy(), advanced_open: false });
            i += 1;
        }
        self.stack = stack;
        self.selected =
        if n == 0 {
            None
        } else {
            Some(0)
        };
        self.preview.prefix_cache.clear();
        self.invalidate_preview();
        assert(self.preview.prefix_cache@ =~= Seq::empty());
        self.shelf.status = Some(quote("Loaded «", preset.name.as_str()));
        self.shelf.popup = false;
    }

    /// Puts the stack on the shelf under the name that was typed, in place of a
    /// preset of that name. Gives the name, or none where nothing is to be
    /// written: the status then says why.
    pub fn stage_user_preset(&mut self) -> (r: Option<String>)
        ensures
            ({
                let name = trimmed(old(self).shelf.name_buf@);
                let list = old(self).shelf.user@;
                let at = preset_place(list, name);
                if name.len() == 0 {
                    &&& r is None
                    &&& status_text(final(self).shelf.status) == Some("Enter a preset name"@)
                    &&& final(self).shelf.user@ == list
                } else if old(self).stack@.len() == 0 {
                    &&& r is None
                    &&& status_text(final(self).shelf.status) == Some(
                        "Stack is empty — nothing to save"@,
                    )
                    &&& final(self).shelf.user@ == list
                } else {
                    &&& r matches Some(s)
                    &&& s@ == name
                    &&& final(self).shelf.status == old(self).shelf.status
                    &&& at <= list.len()
                    &&& exists|p: FilterPreset|
                        {
                            &&& p.name@ == name
                            &&& holds_stack(p, old(self).stack@)
                            &&& final(self).shelf.user@ == #[trigger] shelved(list, at, p)
                        }
                }
            }),
            final(self).shelf.name_buf == old(self).shelf.name_buf,
            final(self).shelf.popup == old(self).shelf.popup,
            final(self).stack == old(self).stack,
            final(self).selected == old(self).selected,
            final(self).preview == old(self).preview,
            final(self).same_frame(*old(self)),
    {
        let name = trim(self.shelf.name_buf.as_str());
        if name.as_str().is_empty() {
            self.shelf.status = Some("Enter a preset name".to_owned());
            return None;
        }
        if self.stack.len() == 0 {
            self.shelf.status = Some("Stack is empty — nothing to save".to_owned());
            return None;
        }
        let n: usize = self.stack.len();
        let mut params: Vec<FilterParams> = Vec::new();
        let mut i: usize = 0;
        while i < n
            invariant
                i <= n,
                n == self.stack.len(),
                *self == *old(self),
                params.len() == i,
                forall|j: int| 0 <= j < i ==> self.stack@[j].params.same(#[trigger] params@[j]),
            decreases n - i,
        {
            params.push(self.stack[i].params.copy());
            i += 1;
        }
        let preset = FilterPreset { name: name.clone(), stack: params };
        let ghost p = preset;
        assert(holds_stack(p, self.stack@));
        let at: usize = find_preset(&self.shelf.user, name.as_str());
        if at < self.shelf.user.len() {
            self.shelf.user.set(at, preset);
        } else {
            self.shelf.user.push(preset);
        }
        assert(self.shelf.user@ =~= shelved(old(self).shelf.user@, at as int, p));
        Some(name)
    }

    /// Tells whether the presets could be written after a save.
    pub fn preset_saved(&mut self, name: &str, outcome: Result<(), String>)
        ensures
            status_text(final(self).shelf.status) == Some(
                match outcome {
                    Ok(_) => quoted("Saved «"@, name@),
                    Err(e) => "Save failed: "@ + e@,
                },
            ),
            outcome is Ok ==> final(self).shelf.name_buf@.len() == 0,
            outcome is Err ==> final(self).shelf.name_buf == old(self).shelf.name_buf,
            final(self).shelf.user == old(self).shelf.user,
            final(self).shelf.popup == old(self).shelf.popup,
            final(self).stack == old(self).stack,
            final(self).selected == old(self).selected,
            final(self).preview == old(self).preview,
            final(self).same_frame(*old(self)),
    {
        match outcome {
            Ok(_) => {
                self.shelf.status = Some(quote("Saved «", name));
                self.shelf.name_buf = String::new();
            },
            Err(e) => {
                let mut text = "Save failed: ".to_owned();
                text.append(e.as_str());
                self.shelf.status = Some(text);
            },
        }
    }

    /// Takes a preset of the user off the shelf. Gives its name.
    pub fn delete_user_preset(&mut self, index: usize) -> (r: Option<String>)
        ensures
            index >= old(self).shelf.user@.len() ==> r is None && *final(self) == *old(self),
            index < old(self).shelf.user@.len() ==> {
                &&& r matches Some(name)
                &&& name@ == old(self).shelf.user@[index as int].name@
                &&& final(self).shelf.user@ == old(self).shelf.user@.remove(index as int)
                &&& final(self).shelf.status == old(self).shelf.status
                &&& final(self).shelf.name_buf == old(self).shelf.name_buf
                &&& final(self).shelf.popup == old(self).shelf.popup
                &&& final(self).stack == old(self).stack
                &&& final(self).selected == old(self).selected
                &&& final(self).preview == old(self).preview
                &&& final(self).same_frame(*old(self))
            },
    {
        if index >= self.shelf.user.len() {
            return None;
        }
        let preset = self.shelf.user.remove(index);
        Some(preset.name)
    }

    /// Tells whether the presets could be written after a deletion.
    pub fn preset_deleted(&mut self, name: &str, outcome: Result<(), String>)
        ensures
            status_text(final(self).shelf.status) == Some(
                match outcome {
                    Ok(_) => quoted("Deleted «"@, name@),
                    Err(e) => "Delete failed: "@ + e@,
                },
            ),
            final(self).shelf.user == old(self).shelf.user,
            final(self).shelf.name_buf == old(self).shelf.name_buf,
            final(self).shelf.popup == old(self).shelf.popup,
            final(self).stack == old(self).stack,
            final(self).selected == old(self).selected,
            final(self).preview == old(self).preview,
            final(self).same_frame(*old(self)),
    {
        self.shelf.status =
        Some(
            match outcome {
                Ok(_) => quote("Deleted «", name),
                Err(e) => {
                    let mut text = "Delete failed: ".to_owned();
                    text.append(e.as_str());
                    text
                },
            },
        );
    }
}

/// A shelf with a preset at a place: in place of the one there, or at the end.
pub open spec fn shelved(list: Seq<FilterPreset>, at: int, p: FilterPreset) -> Seq<FilterPreset> {
    if at < list.len() {
        list.update(at, p)
    } else {
        list.push(p)
    }
}

} // verus!
