//! The editor's long-running tools: the progress they report, the messages the ambient
//! occlusion baker reads from Blender, and the choice of model files to import.

use vstd::prelude::*;
use vstd::string::StrSliceExecFns;

use crate::text::same_text;

verus! {

/// A count that is never zero.
#[derive(Clone, Copy, Debug)]
pub struct NonZeroU32(u32);

impl View for NonZeroU32 {
    type V = u32;

    closed spec fn view(&self) -> u32 {
        self.0
    }
}

impl NonZeroU32 {
    /// The count is not zero.
    pub closed spec fn wf(&self) -> bool {
        self.0 > 0
    }

    /// The count.
    pub fn get(&self) -> (r: u32)
        requires
            self.wf(),
        ensures
            r == self@,
            r > 0,
    {
        self.0
    }
}

/// A count that must not be zero.
pub fn new_non_zero(value: u32) -> (r: NonZeroU32)
    requires
        value != 0,
    ensures
        r@ == value,
        r.wf(),
{
    NonZeroU32(value)
}

/// A process that runs in the foreground of the editor: its title, how many tasks it has,
/// the title of each task and how many steps a task has.
#[derive(Clone, Copy, Debug)]
pub struct ForgroundProcess {
    pub title: &'static str,
    pub tasks: NonZeroU32,
    pub task_title: &'static str,
    pub steps: NonZeroU32,
}

/// What a progress dialog shows: the tasks done and the current task's name, the steps of
/// that task done and the current step's name.
#[derive(Debug)]
pub struct ProgressState {
    pub tasks_done: u32,
    pub task_name: String,
    pub steps_done: u32,
    pub step_name: String,
}

impl ProgressState {
    /// Nothing done yet.
    pub fn new() -> (r: Self)
        ensures
            r.tasks_done == 0,
            r.steps_done == 0,
            r.task_name@ == Seq::<char>::empty(),
            r.step_name@ == Seq::<char>::empty(),
    {
        ProgressState { tasks_done: 0, task_name: String::new(), steps_done: 0, step_name: String::new() }
    }

    /// A new task begins: one more task is done, its name is shown, and its steps start
    /// from none.
    pub fn push_task(&mut self, task_name: &str)
        requires
            old(self).tasks_done < u32::MAX,
        ensures
            final(self).tasks_done == old(self).tasks_done + 1,
            final(self).task_name@ == task_name@,
            final(self).steps_done == 0,
            final(self).step_name@ == Seq::<char>::empty(),
    {
        self.tasks_done = self.tasks_done + 1;
        self.task_name = task_name.to_owned();
        self.steps_done = 0;
        self.step_name = String::new();
    }

    /// A step of the current task is done; its name is shown.
    pub fn push_task_step(&mut self, step_name: &str)
        requires
            old(self).steps_done < u32::MAX,
        ensures
            final(self).steps_done == old(self).steps_done + 1,
            final(self).step_name@ == step_name@,
            final(self).tasks_done == old(self).tasks_done,
            final(self).task_name@ == old(self).task_name@,
    {
        self.steps_done = self.steps_done + 1;
        self.step_name = step_name.to_owned();
    }
}

/// The number of steps Blender reports for each model it bakes.
pub const AO_BAKE_STEPS: u32 = 11;

/// The foreground process of baking ambient occlusion into a number of models.
pub fn ao_bake_process(model_count: usize) -> (r: ForgroundProcess)
    requires
        0 < model_count <= u32::MAX,
    ensures
        r.title@ == "Ambient Occlusion Baking"@,
        r.tasks@ == model_count,
        r.task_title@ == "Bake Mesh"@,
        r.steps@ == AO_BAKE_STEPS,
        r.tasks.wf() && r.steps.wf(),
{
    ForgroundProcess {
        title: "Ambient Occlusion Baking",
        tasks: new_non_zero(model_count as u32),
        task_title: "Bake Mesh",
        steps: new_non_zero(AO_BAKE_STEPS),
    }
}

/// The first index at or after `from` where `s` holds a bar, or its length.
pub open spec fn bar_or_end(s: Seq<char>, from: int) -> int
    decreases s.len() - from,
{
    if from >= s.len() {
        s.len() as int
    } else if s[from] == '|' {
        from
    } else {
        bar_or_end(s, from + 1)
    }
}

/// The text between the first and the second bar of a line, or after the first bar where
/// there is no second; empty where the line has no bar.
pub open spec fn second_field(s: Seq<char>) -> Seq<char> {
    let first = bar_or_end(s, 0);
    if first >= s.len() {
        Seq::empty()
    } else {
        s.subrange(first + 1, bar_or_end(s, first + 1))
    }
}

proof fn lemma_bar_or_end_bounds(s: Seq<char>, from: int)
    requires
        0 <= from <= s.len(),
    ensures
        from <= bar_or_end(s, from) <= s.len(),
    decreases s.len() - from,
{
    if from < s.len() && s[from] != '|' {
        lemma_bar_or_end_bounds(s, from + 1);
    }
}

fn find_bar(s: &str, from: usize, len: usize) -> (r: usize)
    requires
        len == s@.len(),
        from <= len,
    ensures
        r == bar_or_end(s@, from as int),
    decreases len - from,
{
    if from >= len {
        len
    } else if s.get_char(from) == '|' {
        from
    } else {
        find_bar(s, from + 1, len)
    }
}

/// The text between the first and the second bar of a line.
pub fn second_field_of(line: &str) -> (r: &str)
    ensures
        r@ == second_field(line@),
{
    let len = line.unicode_len();
    let first = find_bar(line, 0, len);
    proof {
        lemma_bar_or_end_bounds(line@, 0);
    }
    if first >= len {
        return line.substring_char(0, 0);
    }
    let end = find_bar(line, first + 1, len);
    proof {
        lemma_bar_or_end_bounds(line@, first + 1);
    }
    line.substring_char(first + 1, end)
}

/// Whether a text starts with another.
pub fn starts_with(s: &str, prefix: &str) -> (r: bool)
    ensures
        r == (prefix@.len() <= s@.len() && s@.subrange(0, prefix@.len() as int) == prefix@),
{
    let n = prefix.unicode_len();
    if n > s.unicode_len() {
        return false;
    }
    same_text(s.substring_char(0, n), prefix)
}

/// What a line that Blender prints while it bakes tells the baker.
#[derive(Debug)]
pub enum BlenderMessage<'a> {
    /// A step of the current model is done; the text names it.
    Progress(&'a str),
    /// Blender started on a model; the text names it.
    File(&'a str),
    /// Anything else.
    Other,
}

/// A line tells of a step where it starts with `Progress|`, of a model where it starts
/// with `File|`; the name is the line's second field.
pub open spec fn blender_message_kind(line: Seq<char>) -> int {
    let p = "Progress|"@;
    let f = "File|"@;
    if p.len() <= line.len() && line.subrange(0, p.len() as int) == p {
        0
    } else if f.len() <= line.len() && line.subrange(0, f.len() as int) == f {
        1
    } else {
        2
    }
}

/// Reads a line that Blender printed.
pub fn parse_blender_line(line: &str) -> (r: BlenderMessage<'_>)
    ensures
        blender_message_kind(line@) == 0 ==> (r matches BlenderMessage::Progress(label) && label@
            == second_field(line@)),
        blender_message_kind(line@) == 1 ==> (r matches BlenderMessage::File(label) && label@
            == second_field(line@)),
        blender_message_kind(line@) == 2 ==> r is Other,
{
    if starts_with(line, "Progress|") {
        BlenderMessage::Progress(second_field_of(line))
    } else if starts_with(line, "File|") {
        BlenderMessage::File(second_field_of(line))
    } else {
        BlenderMessage::Other
    }
}

/// How the Blender process stands when the baker looks at it.
#[derive(Clone, Copy, Debug, PartialEq, Eq, Structural)]
pub enum BlenderStatus {
    /// Still running.
    Running,
    /// Finished successfully.
    Succeeded,
    /// Finished with a failure.
    Failed,
    /// Its status could not be read.
    Unknown,
}

/// The baker keeps reading Blender's output only while Blender runs.
pub fn keep_reading(status: BlenderStatus) -> (r: bool)
    ensures
        r == (status == BlenderStatus::Running),
{
    matches!(status, BlenderStatus::Running)
}

/// The pattern that a model file's name matches: it ends in `.gltf` or `.glb`.
pub const GLTF_FILE_PATTERN: &'static str = "\\.(?:gltf|glb)$";

/// Whether a text ends with a suffix.
pub open spec fn ends_with(text: Seq<char>, suffix: Seq<char>) -> bool {
    suffix.len() <= text.len() && text.subrange(text.len() - suffix.len(), text.len() as int) == suffix
}

/// Whether a file name ends in `.gltf` or `.glb`.
pub open spec fn has_model_extension(name: Seq<char>) -> bool {
    ends_with(name, seq!['.', 'g', 'l', 't', 'f']) || ends_with(name, seq!['.', 'g', 'l', 'b'])
}

/// Compiles the model-file pattern with `regex::Regex::new` and tests a text with
/// `Regex::is_match`. Claimed: the pattern `\.(?:gltf|glb)$` compiles, and it matches a
/// text exactly where the text ends in `.gltf` or `.glb` (without multi-line mode, `$`
/// matches only at the end of the text).
#[verifier::external_body]
fn regex_is_match(pattern: &str, haystack: &str) -> (r: Option<bool>)
    requires
        pattern@ == GLTF_FILE_PATTERN@,
    ensures
        r == Some(has_model_extension(haystack@)),
{
    match regex::Regex::new(pattern) {
        Ok(re) => Some(re.is_match(haystack)),
        Err(_) => None,
    }
}

/// Whether a file name is the name of a model file: it ends in `.gltf` or `.glb`. The
/// pattern always compiles, so the result is always some.
pub fn is_gltf_file(file_name: &str) -> (r: Option<bool>)
    ensures
        r == Some(has_model_extension(file_name@)),
{
    regex_is_match(GLTF_FILE_PATTERN, file_name)
}

/// The positions of the names that matched, in order, given the outcome of matching each
/// name; none where a pattern failed to compile.
pub open spec fn matching_positions(outcomes: Seq<Option<bool>>) -> Option<Seq<usize>>
    decreases outcomes.len(),
{
    if outcomes.len() == 0 {
        Some(seq![])
    } else {
        match matching_positions(outcomes.drop_last()) {
            None => None,
            Some(rest) => match outcomes.last() {
                None => None,
                Some(true) => Some(rest.push((outcomes.len() - 1) as usize)),
                Some(false) => Some(rest),
            },
        }
    }
}

/// Picks the positions of the names that matched from the outcomes of matching them.
pub fn select_matching(outcomes: &Vec<Option<bool>>) -> (r: Option<Vec<usize>>)
    ensures
        match r {
            Some(v) => matching_positions(outcomes@) == Some(v@),
            None => matching_positions(outcomes@) is None,
        },
{
    let mut picked: Vec<usize> = Vec::new();
    let mut i: usize = 0;
    while i < outcomes.len()
        invariant
            0 <= i <= outcomes.len(),
            matching_positions(outcomes@.take(i as int)) == Some(picked@),
        decreases outcomes.len() - i,
    {
        assert(outcomes@.take(i as int + 1).drop_last() =~= outcomes@.take(i as int));
        match outcomes[i] {
            None => {
                proof {
                    lemma_matching_none_stays(outcomes@, i as int + 1);
                }
                return None;
            },
            Some(true) => {
                picked.push(i);
            },
            Some(false) => {},
        }
        i = i + 1;
    }
    assert(outcomes@.take(outcomes@.len() as int) =~= outcomes@);
    Some(picked)
}

proof fn lemma_matching_none_stays(outcomes: Seq<Option<bool>>, n: int)
    requires
        0 < n <= outcomes.len(),
        matching_positions(outcomes.take(n)) is None,
    ensures
        matching_positions(outcomes) is None,
    decreases outcomes.len() - n,
{
    if n < outcomes.len() {
        assert(outcomes.take(n + 1).drop_last() =~= outcomes.take(n));
        lemma_matching_none_stays(outcomes, n + 1);
    } else {
        assert(outcomes.take(n) =~= outcomes);
    }
}

/// Whether a text ends with another.
pub fn ends_with_text(s: &str, suffix: &str) -> (r: bool)
    ensures
        r == ends_with(s@, suffix@),
{
    let n = suffix.unicode_len();
    let len = s.unicode_len();
    if n > len {
        return false;
    }
    same_text(s.substring_char(len - n, len), suffix)
}

/// Whether a file's extension, the part of its name after the last dot where that dot is
/// not the name's first character, is `gltf` or `glb`.
pub open spec fn has_bake_extension(name: Seq<char>) -> bool {
    (ends_with(name, seq!['.', 'g', 'l', 't', 'f']) && name.len() > 5) || (ends_with(
        name,
        seq!['.', 'g', 'l', 'b'],
    ) && name.len() > 4)
}

/// Whether a file is a model that the ambient occlusion baker takes: its extension is
/// `gltf` or `glb`.
pub fn is_bake_model(file_name: &str) -> (r: bool)
    ensures
        r == has_bake_extension(file_name@),
{
    let gltf = ".gltf";
    let glb = ".glb";
    proof {
        reveal_strlit(".gltf");
        reveal_strlit(".glb");
        assert(gltf@ =~= seq!['.', 'g', 'l', 't', 'f']);
        assert(glb@ =~= seq!['.', 'g', 'l', 'b']);
    }
    let n = file_name.unicode_len();
    (ends_with_text(file_name, gltf) && n > 5) || (ends_with_text(file_name, glb) && n > 4)
}

/// The positions, in order, of the names that end in `.gltf` or `.glb`.
pub open spec fn model_positions(names: Seq<Seq<char>>) -> Seq<usize>
    decreases names.len(),
{
    if names.len() == 0 {
        seq![]
    } else {
        let rest = model_positions(names.drop_last());
        if has_model_extension(names.last()) {
            rest.push((names.len() - 1) as usize)
        } else {
            rest
        }
    }
}

/// The positions of the model files among some file names, in order. The pattern always
/// compiles, so the result is always some.
pub fn select_gltf_files(file_names: &Vec<String>) -> (r: Option<Vec<usize>>)
    ensures
        r matches Some(v) && v@ == model_positions(file_names@.map_values(|n: String| n@)),
{
    let mut picked: Vec<usize> = Vec::new();
    let mut i: usize = 0;
    while i < file_names.len()
        invariant
            0 <= i <= file_names.len(),
            picked@ == model_positions(file_names@.take(i as int).map_values(|n: String| n@)),
        decreases file_names.len() - i,
    {
        assert(file_names@.take(i as int + 1).map_values(|n: String| n@).drop_last()
            =~= file_names@.take(i as int).map_values(|n: String| n@));
        if is_gltf_file(file_names[i].as_str()) == Some(true) {
            picked.push(i);
        }
        i = i + 1;
    }
    assert(file_names@.take(file_names@.len() as int) =~= file_names@);
    Some(picked)
}

/// A node path with every leading `./` removed.
pub open spec fn without_leading_dot_slash(s: Seq<char>) -> Seq<char>
    decreases s.len(),
{
    if s.len() >= 2 && s[0] == '.' && s[1] == '/' {
        without_leading_dot_slash(s.subrange(2, s.len() as int))
    } else {
        s
    }
}

/// The path under which an import config files the settings of a node: its path in the
/// scene without the leading `./`.
pub fn import_node_path(path: &str) -> (r: &str)
    ensures
        r@ == without_leading_dot_slash(path@),
{
    let len = path.unicode_len();
    let mut start: usize = 0;
    assert(path@.subrange(0, len as int) =~= path@);
    while start < len && len - start >= 2 && path.get_char(start) == '.' && path.get_char(start + 1) == '/'
        invariant
            len == path@.len(),
            start <= len,
            without_leading_dot_slash(path@.subrange(start as int, len as int)) == without_leading_dot_slash(
                path@,
            ),
        decreases len - start,
    {
        assert(path@.subrange(start as int + 2, len as int) =~= path@.subrange(start as int, len as int).subrange(
            2,
            (len - start) as int,
        ));
        start = start + 2;
    }
    let rest = path.substring_char(start, len);
    proof {
        let t = path@.subrange(start as int, len as int);
        assert(rest@ == t);
        if start < len && len - start >= 2 {
            assert(t[0] == path@[start as int] && t[1] == path@[start as int + 1]);
        }
    }
    rest
}

} // verus!
