//! Components that can be shown alone: the registry that names them, and
//! the decisions of the launcher that starts one.

use vstd::prelude::*;

verus! {

/// A component that can be shown alone: its qualified name and what starts
/// it. `E` is the entry point's type, which the registry only keeps.
#[derive(Debug, PartialEq, Eq)]
pub struct PreviewEntry<E> {
    pub name: String,
    pub entry: E,
}

/// The previewable components of a program, each under its own name. It is
/// filled once, when the program starts, and only read afterwards.
#[derive(Debug)]
pub struct PreviewRegistry<E> {
    entries: Vec<PreviewEntry<E>>,
}

/// Whether one of the entries has the name `name`.
pub open spec fn has_name<E>(entries: Seq<(Seq<char>, E)>, name: Seq<char>) -> bool {
    exists|i: int| 0 <= i < entries.len() && (#[trigger] entries[i]).0 == name
}

/// Whether no two entries share a name.
pub open spec fn names_distinct<E>(entries: Seq<(Seq<char>, E)>) -> bool {
    forall|i: int, j: int|
        0 <= i < j < entries.len() ==> (#[trigger] entries[i]).0 != (#[trigger] entries[j]).0
}

/// The entry under `name`, where there is one.
pub open spec fn lookup<E>(entries: Seq<(Seq<char>, E)>, name: Seq<char>) -> Option<E> {
    if has_name(entries, name) {
        Some(entries[choose|i: int| 0 <= i < entries.len() && (#[trigger] entries[i]).0 == name].1)
    } else {
        None
    }
}

impl<E> View for PreviewRegistry<E> {
    type V = Seq<(Seq<char>, E)>;

    /// The entries in the order of their registration, each as its name and
    /// its entry point.
    closed spec fn view(&self) -> Seq<(Seq<char>, E)> {
        Seq::new(self.entries@.len(), |i: int| (self.entries@[i].name@, self.entries@[i].entry))
    }
}

impl<E> PreviewRegistry<E> {
    /// Whether the registry is well formed: no two entries share a name.
    pub open spec fn wf(&self) -> bool {
        names_distinct(self@)
    }

    /// A registry without entries.
    pub fn new() -> (r: Self)
        ensures
            r.wf(),
            r@.len() == 0,
    {
        PreviewRegistry { entries: Vec::new() }
    }

    /// The number of entries.
    pub fn len(&self) -> (n: usize)
        ensures
            n == self@.len(),
    {
        self.entries.len()
    }

    /// Whether there is no entry.
    pub fn is_empty(&self) -> (r: bool)
        ensures
            r == (self@.len() == 0),
    {
        self.entries.len() == 0
    }

    /// The place of the entry under `name`, where there is one.
    pub fn position(&self, name: &str) -> (r: Option<usize>)
        ensures
            match r {
                Some(i) => {
                    &&& i < self@.len()
                    &&& self@[i as int].0 == name@
                    &&& forall|j: int| 0 <= j < i ==> (#[trigger] self@[j]).0 != name@
                },
                None => !has_name(self@, name@),
            },
    {
        let key = String::from_str(name);
        let mut i: usize = 0;
        while i < self.entries.len()
            invariant
                i <= self.entries@.len(),
                key@ == name@,
                forall|j: int| 0 <= j < i ==> (#[trigger] self@[j]).0 != name@,
            decreases self.entries@.len() - i,
        {
            if self.entries[i].name == key {
                return Some(i);
            }
            i = i + 1;
        }
        None
    }

    /// The entry point under `name`: found by the name's exact text, and
    /// `None` where no entry has it.
    pub fn find(&self, name: &str) -> (r: Option<&E>)
        requires
            self.wf(),
        ensures
            match r {
                Some(entry) => lookup(self@, name@) == Some(*entry),
                None => lookup(self@, name@) is None,
            },
    {
        match self.position(name) {
            Some(i) => {
                proof {
                    lemma_lookup_at(self@, i as int);
                }
                Some(&self.entries[i].entry)
            },
            None => None,
        }
    }

    /// Adds an entry under `name`, unless the name is taken: then the
    /// registry stays as it is and the entry comes back.
    pub fn register(&mut self, name: String, entry: E) -> (r: Result<(), PreviewEntry<E>>)
        requires
            old(self).wf(),
        ensures
            final(self).wf(),
            match r {
                Ok(_) => !has_name(old(self)@, name@) && final(self)@ == old(self)@.push(
                    (name@, entry),
                ),
                Err(back) => has_name(old(self)@, name@) && final(self)@ == old(self)@
                    && back.name == name && back.entry == entry,
            },
    {
        match self.position(name.as_str()) {
            Some(_) => Err(PreviewEntry { name, entry }),
            None => {
                self.entries.push(PreviewEntry { name, entry });
                proof {
                    assert(final(self)@ =~= old(self)@.push((name@, entry)));
                }
                Ok(())
            },
        }
    }

    /// The names of all entries, in the order of their registration.
    pub fn names(&self) -> (r: Vec<String>)
        ensures
            r@.len() == self@.len(),
            forall|i: int| 0 <= i < r@.len() ==> (#[trigger] r@[i])@ == self@[i].0,
    {
        let mut out: Vec<String> = Vec::new();
        let mut i: usize = 0;
        while i < self.entries.len()
            invariant
                i <= self.entries@.len(),
                out@.len() == i,
                forall|j: int| 0 <= j < i ==> (#[trigger] out@[j])@ == self@[j].0,
            decreases self.entries@.len() - i,
        {
            out.push(self.entries[i].name.clone());
            i = i + 1;
        }
        out
    }
}

/// In a registry without a repeated name, the entry under the name at place
/// `i` is the entry at place `i`.
pub proof fn lemma_lookup_at<E>(entries: Seq<(Seq<char>, E)>, i: int)
    requires
        names_distinct(entries),
        0 <= i < entries.len(),
    ensures
        lookup(entries, entries[i].0) == Some(entries[i].1),
{
    let name = entries[i].0;
    assert(has_name(entries, name));
    let k = choose|k: int| 0 <= k < entries.len() && (#[trigger] entries[k]).0 == name;
    assert(k == i) by {
        if k < i {
            assert(entries[k].0 != entries[i].0);
        } else if i < k {
            assert(entries[i].0 != entries[k].0);
        }
    }
}

/// Two entries of a registry have two names, and looking up either name
/// gives the entry registered under it, never the other's.
pub proof fn lemma_lookup_finds_own_entry<E>(entries: Seq<(Seq<char>, E)>, i: int, j: int)
    requires
        names_distinct(entries),
        0 <= i < entries.len(),
        0 <= j < entries.len(),
        i != j,
    ensures
        entries[i].0 != entries[j].0,
        lookup(entries, entries[i].0) == Some(entries[i].1),
        lookup(entries, entries[j].0) == Some(entries[j].1),
{
    if i < j {
        assert(entries[i].0 != entries[j].0);
    } else {
        assert(entries[j].0 != entries[i].0);
    }
    lemma_lookup_at(entries, i);
    lemma_lookup_at(entries, j);
}

/// The name that a component is registered under: the path of its module,
/// `::`, and the name of its type.
pub open spec fn qualified(module: Seq<char>, component: Seq<char>) -> Seq<char> {
    module + "::"@ + component
}

/// The qualified name of the type `component` in the module `module`.
pub fn qualified_name(module: &str, component: &str) -> (r: String)
    ensures
        r@ == qualified(module@, component@),
{
    let mut name = String::from_str(module);
    name.append("::");
    name.append(component);
    name
}

/// Types of one name in two modules have two qualified names.
pub proof fn lemma_qualified_tells_modules_apart(
    first: Seq<char>,
    second: Seq<char>,
    component: Seq<char>,
)
    requires
        first != second,
    ensures
        qualified(first, component) != qualified(second, component),
{
    let a = qualified(first, component);
    let b = qualified(second, component);
    if a == b {
        assert(a.len() == first.len() + "::"@.len() + component.len());
        assert(b.len() == second.len() + "::"@.len() + component.len());
        assert(first.len() == second.len());
        assert forall|i: int| 0 <= i < first.len() implies first[i] == second[i] by {
            assert(a[i] == first[i]);
            assert(b[i] == second[i]);
        }
        assert(first =~= second);
    }
}

/// The title of the window that shows the component `name` alone.
pub open spec fn title_text(name: Seq<char>) -> Seq<char> {
    "Previewing "@ + name
}

/// The title of the window that shows the component `name` alone.
pub fn preview_title(name: &str) -> (r: String)
    ensures
        r@ == title_text(name@),
{
    let mut title = String::from_str("Previewing ");
    title.append(name);
    title
}

/// Why a preview was not shown.
#[derive(Debug, Clone, PartialEq, Eq)]
pub enum PreviewError {
    /// No entry has the name that was asked for.
    TargetNotFound(String),
    /// The user left the selection without choosing.
    Canceled,
    /// The selection could not be shown; the text says why.
    Prompt(String),
    /// The preview of the named target ended with an error.
    Failed(String),
}

/// The text that describes an error to the user.
pub open spec fn error_text(error: PreviewError) -> Seq<char> {
    match error {
        PreviewError::TargetNotFound(name) => "Target '"@ + name@ + "' not found."@,
        PreviewError::Canceled => "Operation canceled"@,
        PreviewError::Prompt(reason) => reason@,
        PreviewError::Failed(name) => "Failed to previewing "@ + name@,
    }
}

impl PreviewError {
    /// Describes the error to the user.
    pub fn message(&self) -> (r: String)
        ensures
            r@ == error_text(*self),
    {
        match self {
            PreviewError::TargetNotFound(name) => {
                let mut text = String::from_str("Target '");
                text.append(name.as_str());
                text.append("' not found.");
                text
            },
            PreviewError::Canceled => String::from_str("Operation canceled"),
            PreviewError::Prompt(reason) => reason.clone(),
            PreviewError::Failed(name) => {
                let mut text = String::from_str("Failed to previewing ");
                text.append(name.as_str());
                text
            },
        }
    }
}

/// What the launcher says where there is nothing to choose from.
pub const NO_TARGETS: &'static str = "No targets available.";

/// What the launcher asks where it lets the user choose.
pub const SELECT_PROMPT: &'static str = "Select a target to execute:";

/// What the user answered to the selection.
#[derive(Debug, Clone, PartialEq, Eq)]
pub enum PromptAnswer {
    /// One of the offered names.
    Selected(String),
    /// Nothing: the user left the selection.
    Canceled,
    /// The selection could not be shown.
    Failed(String),
}

/// What the launcher is to do next.
#[derive(Debug, Clone, PartialEq, Eq)]
pub enum Launch {
    /// Say that no target is available, and end with success.
    NoTargets,
    /// Let the user choose among the names.
    Ask { options: Vec<String> },
    /// Show the target, in a process of its own.
    Run { target: String },
    /// Report the error, and end with failure.
    Fail(PreviewError),
}

/// The texts of a list of strings.
pub open spec fn texts(items: Seq<String>) -> Seq<Seq<char>> {
    items.map_values(|item: String| item@)
}

/// The names of a registry's entries, in their order.
pub open spec fn names_of<E>(entries: Seq<(Seq<char>, E)>) -> Seq<Seq<char>> {
    entries.map_values(|entry: (Seq<char>, E)| entry.0)
}

/// Whether `launch` is the step that the launcher takes on a target named
/// to it: to run it where it is registered, else to fail with the name.
pub open spec fn launches_named<E>(
    entries: Seq<(Seq<char>, E)>,
    name: Seq<char>,
    launch: Launch,
) -> bool {
    if has_name(entries, name) {
        launch matches Launch::Run { target } && target@ == name
    } else {
        launch matches Launch::Fail(PreviewError::TargetNotFound(missing)) && missing@ == name
    }
}

/// Whether `launch` is the step that the launcher starts with, given the
/// registry and the argument of the command line. A target named there is
/// looked up and never asked for; without one the user chooses, unless the
/// registry is empty.
pub open spec fn launches<E>(
    entries: Seq<(Seq<char>, E)>,
    argument: Option<Seq<char>>,
    launch: Launch,
) -> bool {
    match argument {
        Some(name) => launches_named(entries, name, launch),
        None => if entries.len() == 0 {
            launch is NoTargets
        } else {
            launch matches Launch::Ask { options } && texts(options@) == names_of(entries)
        },
    }
}

/// Whether `launch` is the step that follows the user's answer.
pub open spec fn launches_answer<E>(
    entries: Seq<(Seq<char>, E)>,
    answer: PromptAnswer,
    launch: Launch,
) -> bool {
    match answer {
        PromptAnswer::Selected(name) => launches_named(entries, name@, launch),
        PromptAnswer::Canceled => launch matches Launch::Fail(PreviewError::Canceled),
        PromptAnswer::Failed(reason) => launch matches Launch::Fail(PreviewError::Prompt(text))
            && text@ == reason@,
    }
}

/// Looks up the entry point of a target by its exact name.
pub fn execute_target<'a, E>(registry: &'a PreviewRegistry<E>, target_name: &str) -> (r: Result<
    &'a E,
    PreviewError,
>)
    requires
        registry.wf(),
    ensures
        match r {
            Ok(entry) => lookup(registry@, target_name@) == Some(*entry),
            Err(error) => {
                &&& lookup(registry@, target_name@) is None
                &&& error matches PreviewError::TargetNotFound(missing) && missing@
                    == target_name@
            },
        },
{
    match registry.find(target_name) {
        Some(entry) => Ok(entry),
        None => Err(PreviewError::TargetNotFound(String::from_str(target_name))),
    }
}

/// The launcher's step on a target that was named to it.
fn launch_named<E>(registry: &PreviewRegistry<E>, name: String) -> (r: Launch)
    ensures
        launches_named(registry@, name@, r),
{
    match registry.position(name.as_str()) {
        Some(_) => Launch::Run { target: name },
        None => Launch::Fail(PreviewError::TargetNotFound(name)),
    }
}

/// The launcher's first step: settles the target from the command line's
/// argument, or finds that the user has to choose, or that there is nothing
/// to choose from.
pub fn get_target_name<E>(registry: &PreviewRegistry<E>, argument: Option<String>) -> (r: Launch)
    ensures
        launches(registry@, text_of_argument(argument), r),
{
    match argument {
        Some(name) => launch_named(registry, name),
        None => {
            if registry.is_empty() {
                Launch::NoTargets
            } else {
                let options = registry.names();
                proof {
                    assert(texts(options@) =~= names_of(registry@));
                }
                Launch::Ask { options }
            }
        },
    }
}

/// The text of the command line's argument, where there is one.
pub open spec fn text_of_argument(argument: Option<String>) -> Option<Seq<char>> {
    match argument {
        Some(name) => Some(name@),
        None => None,
    }
}

/// The launcher's step after the user has answered the selection.
pub fn choose_target<E>(registry: &PreviewRegistry<E>, answer: PromptAnswer) -> (r: Launch)
    ensures
        launches_answer(registry@, answer, r),
{
    match answer {
        PromptAnswer::Selected(name) => launch_named(registry, name),
        PromptAnswer::Canceled => Launch::Fail(PreviewError::Canceled),
        PromptAnswer::Failed(reason) => Launch::Fail(PreviewError::Prompt(reason)),
    }
}

/// The command that shows `target` in a process of its own: the build tool,
/// asked to run the preview program with previews switched on, and the
/// target's name as the last argument.
pub open spec fn command_texts(target: Seq<char>) -> Seq<Seq<char>> {
    seq!["cargo"@, "run"@, "--bin"@, "preview"@, "--features"@, "preview"@, "--"@, target]
}

/// The command that shows `target` in a process of its own, the program
/// first and its arguments after it.
pub fn preview_command(target: &str) -> (r: Vec<String>)
    ensures
        r@.len() == command_texts(target@).len(),
        forall|i: int| 0 <= i < r@.len() ==> (#[trigger] r@[i])@ == command_texts(target@)[i],
        r@.last()@ == target@,
{
    let mut command: Vec<String> = Vec::new();
    command.push(String::from_str("cargo"));
    command.push(String::from_str("run"));
    command.push(String::from_str("--bin"));
    command.push(String::from_str("preview"));
    command.push(String::from_str("--features"));
    command.push(String::from_str("preview"));
    command.push(String::from_str("--"));
    command.push(String::from_str(target));
    command
}

/// What the launcher ends with once the preview's process has ended:
/// success where the process succeeded, else the failure of that target.
pub fn preview_result(target: &str, succeeded: bool) -> (r: Result<(), PreviewError>)
    ensures
        succeeded ==> r is Ok,
        !succeeded ==> (r matches Err(PreviewError::Failed(name)) && name@ == target@),
{
    if succeeded {
        Ok(())
    } else {
        Err(PreviewError::Failed(String::from_str(target)))
    }
}

/// A registered target that is named on the command line is run without
/// asking the user, and its name is the last argument of the command that
/// shows it.
pub proof fn lemma_named_target_runs<E>(
    entries: Seq<(Seq<char>, E)>,
    name: Seq<char>,
    launch: Launch,
)
    requires
        has_name(entries, name),
        launches(entries, Some(name), launch),
    ensures
        launch matches Launch::Run { target } && target@ == name,
        command_texts(name).last() == name,
{
}

/// With no target named and none registered, the launcher neither asks nor
/// runs anything.
pub proof fn lemma_empty_registry_launches_nothing<E>(
    entries: Seq<(Seq<char>, E)>,
    launch: Launch,
)
    requires
        entries.len() == 0,
        launches(entries, None, launch),
    ensures
        launch is NoTargets,
{
}

} // verus!
