//! What a command hands back when it succeeds.

use vstd::prelude::*;

verus! {

/// What an [`ObjectRef`] stands for.
pub struct ObjectRefView {
    pub id: Seq<char>,
    pub version: u64,
    pub digest: Seq<u8>,
}

/// One object that a command listed: its identifier as it is displayed, and
/// the version and digest that came with it.
#[derive(Debug, PartialEq, Eq)]
pub struct ObjectRef {
    pub id: String,
    pub version: u64,
    pub digest: Vec<u8>,
}

impl View for ObjectRef {
    type V = ObjectRefView;

    open spec fn view(&self) -> ObjectRefView {
        ObjectRefView { id: self.id@, version: self.version, digest: self.digest@ }
    }
}

impl DeepView for ObjectRef {
    type V = ObjectRefView;

    open spec fn deep_view(&self) -> ObjectRefView {
        self@
    }
}

impl Clone for ObjectRef {
    fn clone(&self) -> (copy: ObjectRef)
        ensures
            copy@ == self@,
    {
        let digest = self.digest.clone();
        assert(digest@ =~= self.digest@);
        ObjectRef { id: self.id.clone(), version: self.version, digest }
    }
}

/// What a [`CommandResult`] stands for.
pub enum ResultView {
    Addresses(Seq<Seq<char>>),
    Objects(Seq<ObjectRefView>),
    Other,
}

/// The result of a command that succeeded, by kind.
#[derive(Debug, PartialEq, Eq)]
pub enum CommandResult {
    /// The addresses that the session knows, each as it is displayed.
    Addresses(Vec<String>),
    /// The objects that an address owns.
    Objects(Vec<ObjectRef>),
    /// Any other result: it offers nothing for completion.
    Other,
}

impl View for CommandResult {
    type V = ResultView;

    open spec fn view(&self) -> ResultView {
        match self {
            CommandResult::Addresses(addresses) => ResultView::Addresses(addresses.deep_view()),
            CommandResult::Objects(objects) => ResultView::Objects(objects.deep_view()),
            CommandResult::Other => ResultView::Other,
        }
    }
}

/// A copy of `strings`, text by text.
pub(crate) fn copy_of(strings: &Vec<String>) -> (copy: Vec<String>)
    ensures
        copy.deep_view() == strings.deep_view(),
{
    let mut copy: Vec<String> = Vec::new();
    let mut i: usize = 0;
    while i < strings.len()
        invariant
            i <= strings.len(),
            copy.len() == i,
            forall|j: int| 0 <= j < i ==> copy[j]@ == strings[j]@,
        decreases strings.len() - i,
    {
        copy.push(strings[i].clone());
        i += 1;
    }
    assert(copy.deep_view() =~= strings.deep_view());
    copy
}

impl Clone for CommandResult {
    fn clone(&self) -> (copy: CommandResult)
        ensures
            copy@ == self@,
    {
        match self {
            CommandResult::Addresses(addresses) => CommandResult::Addresses(copy_of(addresses)),
            CommandResult::Objects(objects) => {
                let mut copy: Vec<ObjectRef> = Vec::new();
                let mut i: usize = 0;
                while i < objects.len()
                    invariant
                        i <= objects.len(),
                        copy.len() == i,
                        forall|j: int| 0 <= j < i ==> copy[j]@ == objects[j]@,
                    decreases objects.len() - i,
                {
                    copy.push(objects[i].clone());
                    i += 1;
                }
                assert(copy.deep_view() =~= objects.deep_view());
                CommandResult::Objects(copy)
            },
            CommandResult::Other => CommandResult::Other,
        }
    }
}

/// How a result is written to standard output.
#[derive(Clone, Copy, Debug, PartialEq, Eq, Structural)]
pub enum RenderMode {
    /// For a program to parse.
    Structured,
    /// For a person to read.
    Formatted,
}

/// The mode that the flag for machine-readable output asks for.
pub open spec fn render_mode_of(json: bool) -> RenderMode {
    if json {
        RenderMode::Structured
    } else {
        RenderMode::Formatted
    }
}

/// The mode that the flag for machine-readable output asks for.
pub fn render_mode(json: bool) -> (mode: RenderMode)
    ensures
        mode == render_mode_of(json),
{
    if json {
        RenderMode::Structured
    } else {
        RenderMode::Formatted
    }
}

} // verus!
