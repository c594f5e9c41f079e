//! Custom steps (`.trappo/steps.toml`): commands that run on the server before
//! or after a named step of the recipe.

use vstd::prelude::*;
use crate::config::FileRead;
use crate::text::{concat3, concat4};
use crate::toml::{TomlTable, TomlValue, lookup, sub_table, parse_toml, toml_document};

verus! {

/// Where a custom step goes relative to the step it refers to.
#[derive(Clone, Copy, PartialEq, Eq, Structural, Debug)]
pub enum StepPosition {
    Before,
    After,
}

/// A custom step read from the steps file.
#[derive(Debug, PartialEq, Eq)]
pub struct StepConfig {
    pub name: String,
    pub comand: String,
    pub position: StepPosition,
    pub ref_step: String,
}

/// `StepConfig` with its texts as character sequences.
pub struct StepConfigView {
    pub name: Seq<char>,
    pub comand: Seq<char>,
    pub position: StepPosition,
    pub ref_step: Seq<char>,
}

impl View for StepConfig {
    type V = StepConfigView;

    open spec fn view(&self) -> StepConfigView {
        StepConfigView { name: self.name@, comand: self.comand@, position: self.position, ref_step: self.ref_step@ }
    }
}

/// Why the custom steps could not be read.
#[derive(Debug, PartialEq, Eq)]
pub enum StepConfigError {
    /// An entry (first field) does not hold the expected type (second field).
    BadType(String, String),
    /// A required field (named here) is missing.
    MissingField(String),
    /// A step gives both `before` and `after`.
    AmbiguousPosition,
    /// A step gives neither `before` nor `after`.
    MissingPosition,
    /// The steps file exists but could not be read.
    IoError,
}

/// `StepConfigError` with its texts as character sequences.
pub enum StepConfigErrorView {
    BadType(Seq<char>, Seq<char>),
    MissingField(Seq<char>),
    AmbiguousPosition,
    MissingPosition,
    IoError,
}

impl View for StepConfigError {
    type V = StepConfigErrorView;

    open spec fn view(&self) -> StepConfigErrorView {
        match self {
            StepConfigError::BadType(n, t) => StepConfigErrorView::BadType(n@, t@),
            StepConfigError::MissingField(n) => StepConfigErrorView::MissingField(n@),
            StepConfigError::AmbiguousPosition => StepConfigErrorView::AmbiguousPosition,
            StepConfigError::MissingPosition => StepConfigErrorView::MissingPosition,
            StepConfigError::IoError => StepConfigErrorView::IoError,
        }
    }
}

/// The text shown for each error.
pub open spec fn step_config_error_message(e: StepConfigErrorView) -> Seq<char> {
    match e {
        StepConfigErrorView::BadType(n, t) => "type mismatch for '"@ + n + "'. expected "@ + t,
        StepConfigErrorView::MissingField(n) => "Required field '"@ + n + "' is missing from steps config file"@,
        StepConfigErrorView::AmbiguousPosition => "Ambiguous step position, only one of before and after fields is allowed, not both."@,
        StepConfigErrorView::MissingPosition => "Step postion is missing, define the position of the step using \"before\" or \"after\" fields."@,
        StepConfigErrorView::IoError => "I/O error while reading the config file"@,
    }
}

impl StepConfigError {
    /// The text shown for this error.
    pub fn message(&self) -> (r: String)
        ensures
            r@ == step_config_error_message(self@),
    {
        match self {
            StepConfigError::BadType(n, t) => concat4("type mismatch for '", n.as_str(), "'. expected ", t.as_str()),
            StepConfigError::MissingField(n) => concat3("Required field '", n.as_str(), "' is missing from steps config file"),
            StepConfigError::AmbiguousPosition => String::from_str(
                "Ambiguous step position, only one of before and after fields is allowed, not both.",
            ),
            StepConfigError::MissingPosition => String::from_str(
                "Step postion is missing, define the position of the step using \"before\" or \"after\" fields.",
            ),
            StepConfigError::IoError => String::from_str("I/O error while reading the config file"),
        }
    }
}

/// A required string entry of a step table.
pub open spec fn step_string(t: TomlTable, key: Seq<char>) -> Result<Seq<char>, StepConfigErrorView> {
    match lookup(t.entries@, key) {
        None => Err(StepConfigErrorView::MissingField(key)),
        Some(TomlValue::Str(s)) => Ok(s@),
        Some(_) => Err(StepConfigErrorView::BadType(key, "string"@)),
    }
}

/// A step read from one `[[<stage>.steps]]` table: name, then command, then
/// exactly one of `before` and `after` (a string naming the reference step).
pub open spec fn step_from_table(t: TomlTable) -> Result<StepConfigView, StepConfigErrorView> {
    match step_string(t, "name"@) {
        Err(e) => Err(e),
        Ok(name) => match step_string(t, "command"@) {
            Err(e) => Err(e),
            Ok(comand) => {
                let has_before = lookup(t.entries@, "before"@) is Some;
                let has_after = lookup(t.entries@, "after"@) is Some;
                if has_before && has_after {
                    Err(StepConfigErrorView::AmbiguousPosition)
                } else if has_before {
                    match step_string(t, "before"@) {
                        Err(e) => Err(e),
                        Ok(r) => Ok(StepConfigView { name, comand, position: StepPosition::Before, ref_step: r }),
                    }
                } else if has_after {
                    match step_string(t, "after"@) {
                        Err(e) => Err(e),
                        Ok(r) => Ok(StepConfigView { name, comand, position: StepPosition::After, ref_step: r }),
                    }
                } else {
                    Err(StepConfigErrorView::MissingPosition)
                }
            },
        },
    }
}

/// Position of the step called `name`, if any.
pub open spec fn name_index(s: Seq<StepConfigView>, name: Seq<char>) -> Option<int>
    decreases s.len(),
{
    if s.len() == 0 {
        None
    } else if s.last().name == name {
        Some(s.len() - 1)
    } else {
        name_index(s.drop_last(), name)
    }
}

/// The step called `name` in `s`, if any.
pub open spec fn step_named(s: Seq<StepConfigView>, name: Seq<char>) -> Option<StepConfigView> {
    match name_index(s, name) {
        Some(i) => Some(s[i]),
        None => None,
    }
}

/// What the last of `tables` that reads as a step called `name` reads as, if
/// any.
pub open spec fn last_step_named(tables: Seq<TomlTable>, name: Seq<char>) -> Option<StepConfigView>
    decreases tables.len(),
{
    if tables.len() == 0 {
        None
    } else {
        let r = step_from_table(tables.last());
        if r is Ok && r->Ok_0.name == name {
            Some(r->Ok_0)
        } else {
            last_step_named(tables.drop_last(), name)
        }
    }
}

/// Adds a step, replacing the step of the same name if there is one.
pub open spec fn upsert(s: Seq<StepConfigView>, c: StepConfigView) -> Seq<StepConfigView> {
    match name_index(s, c.name) {
        Some(i) => s.update(i, c),
        None => s.push(c),
    }
}

/// Reads the step tables in order and adds each, stopping at the first error.
pub open spec fn add_step_tables(acc: Seq<StepConfigView>, tables: Seq<TomlTable>) -> Result<Seq<StepConfigView>, StepConfigErrorView>
    decreases tables.len(),
{
    if tables.len() == 0 {
        Ok(acc)
    } else {
        match add_step_tables(acc, tables.drop_last()) {
            Err(e) => Err(e),
            Ok(a) => match step_from_table(tables.last()) {
                Err(e) => Err(e),
                Ok(c) => Ok(upsert(a, c)),
            },
        }
    }
}

/// The step tables of a section (`[[<section>.steps]]`); none when the
/// section or its `steps` entry is missing or is not what is expected.
pub open spec fn section_step_tables(doc: TomlTable, section: Seq<char>) -> Seq<TomlTable> {
    match sub_table(doc.entries@, section) {
        Some(t) => match lookup(t.entries@, "steps"@) {
            Some(TomlValue::TableArray(ts)) => ts@,
            _ => Seq::empty(),
        },
        None => Seq::empty(),
    }
}

/// The custom steps of `stage`: the stage's steps, then the global ones,
/// a global step replacing a stage step of the same name.
pub open spec fn stage_steps(doc: TomlTable, stage: Seq<char>) -> Result<Seq<StepConfigView>, StepConfigErrorView> {
    match add_step_tables(Seq::empty(), section_step_tables(doc, stage)) {
        Err(e) => Err(e),
        Ok(a) => add_step_tables(a, section_step_tables(doc, "global"@)),
    }
}

/// No two steps share a name.
pub open spec fn names_distinct(s: Seq<StepConfigView>) -> bool {
    forall|i: int, j: int| 0 <= i < s.len() && 0 <= j < s.len() && i != j ==> s[i].name != s[j].name
}

/// A result with its texts as character sequences.
pub open spec fn steps_result_view(r: Result<Vec<StepConfig>, StepConfigError>) -> Result<Seq<StepConfigView>, StepConfigErrorView> {
    match r {
        Ok(v) => Ok(v@.map_values(|c: StepConfig| c@)),
        Err(e) => Err(e@),
    }
}

/// The outcome of reading the steps file: a missing file means no custom
/// steps; `None` when the text is not TOML.
pub open spec fn steps_file_outcome(file: FileRead, stage: Seq<char>) -> Option<Result<Seq<StepConfigView>, StepConfigErrorView>> {
    match file {
        FileRead::NotFound => Some(Ok(Seq::empty())),
        FileRead::OpenFailed => Some(Err(StepConfigErrorView::IoError)),
        FileRead::ReadFailed => Some(Err(StepConfigErrorView::IoError)),
        FileRead::Contents(text) => match toml_document(text@) {
            None => None,
            Some(doc) => Some(stage_steps(doc, stage)),
        },
    }
}

fn step_string_exec(t: &TomlTable, key: &str) -> (r: Result<String, StepConfigError>)
    ensures
        match r {
            Ok(s) => step_string(*t, key@) == Ok::<Seq<char>, StepConfigErrorView>(s@),
            Err(e) => step_string(*t, key@) == Err::<Seq<char>, StepConfigErrorView>(e@),
        },
{
    match t.find(key) {
        None => Err(StepConfigError::MissingField(String::from_str(key))),
        Some(i) => match &t.entries[i].1 {
            TomlValue::Str(s) => Ok(s.clone()),
            _ => Err(StepConfigError::BadType(String::from_str(key), String::from_str("string"))),
        },
    }
}

/// Reads one step table, as `step_from_table` describes it.
pub fn parse_step_table(table: &TomlTable) -> (r: Result<StepConfig, StepConfigError>)
    ensures
        match r {
            Ok(c) => step_from_table(*table) == Ok::<StepConfigView, StepConfigErrorView>(c@),
            Err(e) => step_from_table(*table) == Err::<StepConfigView, StepConfigErrorView>(e@),
        },
{
    let name: String = match step_string_exec(table, "name") {
        Ok(s) => s,
        Err(e) => return Err(e),
    };
    let comand: String = match step_string_exec(table, "command") {
        Ok(s) => s,
        Err(e) => return Err(e),
    };
    let has_before: bool = table.find("before").is_some();
    let has_after: bool = table.find("after").is_some();
    if has_before && has_after {
        Err(StepConfigError::AmbiguousPosition)
    } else if has_before {
        match step_string_exec(table, "before") {
            Ok(r) => Ok(StepConfig { name, comand, position: StepPosition::Before, ref_step: r }),
            Err(e) => Err(e),
        }
    } else if has_after {
        match step_string_exec(table, "after") {
            Ok(r) => Ok(StepConfig { name, comand, position: StepPosition::After, ref_step: r }),
            Err(e) => Err(e),
        }
    } else {
        Err(StepConfigError::MissingPosition)
    }
}

/// Position of the step called `name` in `steps`, as `name_index` says.
fn find_step_config(steps: &Vec<StepConfig>, name: &String) -> (r: Option<usize>)
    ensures
        match r {
            Some(i) => i < steps@.len() && steps@[i as int].name@ == name@
                && name_index(steps@.map_values(|c: StepConfig| c@), name@) == Some(i as int),
            None => name_index(steps@.map_values(|c: StepConfig| c@), name@) is None,
        },
{
    let ghost views = steps@.map_values(|c: StepConfig| c@);
    let mut i: usize = steps.len();
    assert(views.subrange(0, i as int) =~= views);
    while i > 0
        invariant
            i <= steps@.len(),
            views == steps@.map_values(|c: StepConfig| c@),
            name_index(views, name@) == name_index(views.subrange(0, i as int), name@),
        decreases i,
    {
        assert(views.subrange(0, i as int).drop_last() =~= views.subrange(0, i - 1));
        if steps[i - 1].name == *name {
            assert(views[i - 1].name == name@);
            return Some(i - 1);
        }
        i = i - 1;
    }
    None
}

/// Adds `c` to `steps` as `upsert` describes it.
fn upsert_exec(steps: &mut Vec<StepConfig>, c: StepConfig)
    ensures
        final(steps)@.map_values(|x: StepConfig| x@) == upsert(old(steps)@.map_values(|x: StepConfig| x@), c@),
{
    match find_step_config(steps, &c.name) {
        Some(i) => {
            steps.set(i, c);
            assert(steps@.map_values(|x: StepConfig| x@) =~= upsert(old(steps)@.map_values(|x: StepConfig| x@), c@));
        },
        None => {
            steps.push(c);
            assert(steps@.map_values(|x: StepConfig| x@) =~= upsert(old(steps)@.map_values(|x: StepConfig| x@), c@));
        },
    }
}

/// Adds the steps of `section` to `steps`, as `add_step_tables` describes it.
fn parse_steps_and_add(doc: &TomlTable, section: &str, steps: &mut Vec<StepConfig>) -> (r: Result<(), StepConfigError>)
    ensures
        match r {
            Ok(_) => add_step_tables(old(steps)@.map_values(|x: StepConfig| x@), section_step_tables(*doc, section@))
                == Ok::<Seq<StepConfigView>, StepConfigErrorView>(final(steps)@.map_values(|x: StepConfig| x@)),
            Err(e) => add_step_tables(old(steps)@.map_values(|x: StepConfig| x@), section_step_tables(*doc, section@))
                == Err::<Seq<StepConfigView>, StepConfigErrorView>(e@),
        },
{
    let ghost start = steps@.map_values(|x: StepConfig| x@);
    let sec: &TomlTable = match doc.get_table(section) {
        Some(t) => t,
        None => {
            assert(section_step_tables(*doc, section@) =~= Seq::<TomlTable>::empty());
            return Ok(());
        },
    };
    let tables: &Vec<TomlTable> = match sec.find("steps") {
        Some(i) => match &sec.entries[i].1 {
            TomlValue::TableArray(ts) => ts,
            _ => {
                assert(section_step_tables(*doc, section@) =~= Seq::<TomlTable>::empty());
                return Ok(());
            },
        },
        None => {
            assert(section_step_tables(*doc, section@) =~= Seq::<TomlTable>::empty());
            return Ok(());
        },
    };
    assert(section_step_tables(*doc, section@) == tables@);
    let mut i: usize = 0;
    while i < tables.len()
        invariant
            i <= tables@.len(),
            start == old(steps)@.map_values(|x: StepConfig| x@),
            section_step_tables(*doc, section@) == tables@,
            add_step_tables(start, tables@.subrange(0, i as int))
                == Ok::<Seq<StepConfigView>, StepConfigErrorView>(steps@.map_values(|x: StepConfig| x@)),
        decreases tables@.len() - i,
    {
        assert(tables@.subrange(0, i + 1).drop_last() =~= tables@.subrange(0, i as int));
        match parse_step_table(&tables[i]) {
            Ok(c) => upsert_exec(steps, c),
            Err(e) => {
                proof { lemma_add_step_tables_error(start, tables@, i as int); }
                return Err(e);
            },
        }
        i = i + 1;
    }
    assert(tables@.subrange(0, tables@.len() as int) =~= tables@);
    Ok(())
}

/// Once a table fails to parse, adding any longer list of tables fails with
/// the same error.
proof fn lemma_add_step_tables_error(acc: Seq<StepConfigView>, tables: Seq<TomlTable>, i: int)
    requires
        0 <= i < tables.len(),
        add_step_tables(acc, tables.subrange(0, i)) is Ok,
        step_from_table(tables[i]) is Err,
    ensures
        add_step_tables(acc, tables) == Err::<Seq<StepConfigView>, StepConfigErrorView>(step_from_table(tables[i])->Err_0),
    decreases tables.len(),
{
    if tables.len() == i + 1 {
        assert(tables.drop_last() =~= tables.subrange(0, i));
    } else {
        assert(tables.drop_last().subrange(0, i) =~= tables.subrange(0, i));
        lemma_add_step_tables_error(acc, tables.drop_last(), i);
    }
}

/// Reads the custom steps of `stage` from a parsed steps document: the
/// stage's steps, then the global ones, a later step replacing an earlier one
/// of the same name.
pub fn steps_from_document(doc: &TomlTable, stage: &str) -> (r: Result<Vec<StepConfig>, StepConfigError>)
    ensures
        steps_result_view(r) == stage_steps(*doc, stage@),
        r matches Ok(v) ==> names_distinct(v@.map_values(|c: StepConfig| c@)),
{
    proof { stage_steps_names_distinct(*doc, stage@); }
    let mut steps: Vec<StepConfig> = Vec::new();
    assert(steps@.map_values(|x: StepConfig| x@) =~= Seq::<StepConfigView>::empty());
    match parse_steps_and_add(doc, stage, &mut steps) {
        Err(e) => return Err(e),
        Ok(_) => {},
    }
    match parse_steps_and_add(doc, "global", &mut steps) {
        Err(e) => Err(e),
        Ok(_) => Ok(steps),
    }
}

/// Reads the custom steps of `stage`, given what reading the steps file gave.
///
/// A missing file means no custom steps; a file that cannot be opened or
/// read gives `IoError`. `None` when the text is not valid TOML.
pub fn parse_steps_config_file(file: FileRead, stage: &str) -> (r: Option<Result<Vec<StepConfig>, StepConfigError>>)
    ensures
        match r {
            None => steps_file_outcome(file, stage@) is None,
            Some(res) => steps_file_outcome(file, stage@) == Some(steps_result_view(res)),
        },
{
    match file {
        FileRead::NotFound => {
            let v: Vec<StepConfig> = Vec::new();
            assert(v@.map_values(|x: StepConfig| x@) =~= Seq::<StepConfigView>::empty());
            Some(Ok(v))
        },
        FileRead::OpenFailed => Some(Err(StepConfigError::IoError)),
        FileRead::ReadFailed => Some(Err(StepConfigError::IoError)),
        FileRead::Contents(text) => match parse_toml(text.as_str()) {
            None => None,
            Some(doc) => Some(steps_from_document(&doc, stage)),
        },
    }
}

proof fn lemma_name_index(s: Seq<StepConfigView>, name: Seq<char>)
    ensures
        match name_index(s, name) {
            Some(i) => 0 <= i < s.len() && s[i].name == name,
            None => forall|k: int| 0 <= k < s.len() ==> s[k].name != name,
        },
    decreases s.len(),
{
    if s.len() > 0 {
        lemma_name_index(s.drop_last(), name);
        assert forall|k: int| 0 <= k < s.len() - 1 implies s.drop_last()[k] == #[trigger] s[k] by {}
    }
}

/// Adding a step keeps the names distinct, keeps every step of another
/// name, and the added step is present afterwards.
proof fn lemma_upsert(s: Seq<StepConfigView>, c: StepConfigView)
    requires
        names_distinct(s),
    ensures
        names_distinct(upsert(s, c)),
        upsert(s, c).contains(c),
        forall|x: StepConfigView| s.contains(x) && x.name != c.name ==> upsert(s, c).contains(x),
{
    lemma_name_index(s, c.name);
    let u = upsert(s, c);
    match name_index(s, c.name) {
        Some(i) => {
            assert(u[i] == c);
            assert forall|x: StepConfigView| s.contains(x) && x.name != c.name implies u.contains(x) by {
                let k = choose|k: int| 0 <= k < s.len() && s[k] == x;
                assert(u[k] == x);
            }
        },
        None => {
            assert(u[s.len() as int] == c);
            assert forall|x: StepConfigView| s.contains(x) && x.name != c.name implies u.contains(x) by {
                let k = choose|k: int| 0 <= k < s.len() && s[k] == x;
                assert(u[k] == x);
            }
        },
    }
}

proof fn lemma_add_step_tables_distinct(acc: Seq<StepConfigView>, tables: Seq<TomlTable>)
    requires
        names_distinct(acc),
    ensures
        add_step_tables(acc, tables) matches Ok(s) ==> names_distinct(s),
    decreases tables.len(),
{
    if tables.len() > 0 {
        lemma_add_step_tables_distinct(acc, tables.drop_last());
        if let Ok(a) = add_step_tables(acc, tables.drop_last()) {
            if let Ok(c) = step_from_table(tables.last()) {
                lemma_upsert(a, c);
            }
        }
    }
}

/// The step read from the last table of its name is in the result.
proof fn lemma_add_step_tables_keeps_last(acc: Seq<StepConfigView>, tables: Seq<TomlTable>, i: int)
    requires
        names_distinct(acc),
        0 <= i < tables.len(),
        step_from_table(tables[i]) is Ok,
        forall|j: int| i < j < tables.len() && #[trigger] step_from_table(tables[j]) is Ok
            ==> step_from_table(tables[j])->Ok_0.name != step_from_table(tables[i])->Ok_0.name,
    ensures
        add_step_tables(acc, tables) matches Ok(s) ==> s.contains(step_from_table(tables[i])->Ok_0),
    decreases tables.len(),
{
    let c = step_from_table(tables[i])->Ok_0;
    lemma_add_step_tables_distinct(acc, tables.drop_last());
    if i == tables.len() - 1 {
        if let Ok(a) = add_step_tables(acc, tables.drop_last()) {
            lemma_upsert(a, c);
        }
    } else {
        let init = tables.drop_last();
        assert(init[i] == tables[i]);
        assert forall|j: int| i < j < init.len() && #[trigger] step_from_table(init[j]) is Ok
            implies step_from_table(init[j])->Ok_0.name != c.name by {
            assert(init[j] == tables[j]);
        }
        lemma_add_step_tables_keeps_last(acc, init, i);
        if let Ok(a) = add_step_tables(acc, init) {
            if let Ok(d) = step_from_table(tables.last()) {
                assert(step_from_table(tables[tables.len() - 1]) is Ok);
                lemma_upsert(a, d);
            }
        }
    }
}

/// Law: the custom steps read for a stage never hold two steps of the same
/// name.
pub proof fn stage_steps_names_distinct(doc: TomlTable, stage: Seq<char>)
    ensures
        stage_steps(doc, stage) matches Ok(s) ==> names_distinct(s),
{
    lemma_add_step_tables_distinct(Seq::empty(), section_step_tables(doc, stage));
    if let Ok(a) = add_step_tables(Seq::empty(), section_step_tables(doc, stage)) {
        lemma_add_step_tables_distinct(a, section_step_tables(doc, "global"@));
    }
}

/// Law: a step defined in the global section is among the steps of every
/// stage, whatever the stage defines under the same name (unless a later
/// global step takes the same name).
pub proof fn global_step_overrides(doc: TomlTable, stage: Seq<char>, i: int)
    requires
        0 <= i < section_step_tables(doc, "global"@).len(),
        step_from_table(section_step_tables(doc, "global"@)[i]) is Ok,
        forall|j: int| i < j < section_step_tables(doc, "global"@).len()
            && #[trigger] step_from_table(section_step_tables(doc, "global"@)[j]) is Ok
            ==> step_from_table(section_step_tables(doc, "global"@)[j])->Ok_0.name
                != step_from_table(section_step_tables(doc, "global"@)[i])->Ok_0.name,
    ensures
        stage_steps(doc, stage) matches Ok(s)
            ==> s.contains(step_from_table(section_step_tables(doc, "global"@)[i])->Ok_0),
{
    lemma_add_step_tables_distinct(Seq::empty(), section_step_tables(doc, stage));
    if let Ok(a) = add_step_tables(Seq::empty(), section_step_tables(doc, stage)) {
        lemma_add_step_tables_keeps_last(a, section_step_tables(doc, "global"@), i);
    }
}

/// Replacing a step by one of the same name leaves every name where it was.
proof fn lemma_name_index_update(s: Seq<StepConfigView>, i: int, c: StepConfigView, name: Seq<char>)
    requires
        0 <= i < s.len(),
        s[i].name == c.name,
    ensures
        name_index(s.update(i, c), name) == name_index(s, name),
    decreases s.len(),
{
    let u = s.update(i, c);
    if i == s.len() - 1 {
        assert(u.drop_last() =~= s.drop_last());
    } else {
        assert(u.drop_last() =~= s.drop_last().update(i, c));
        lemma_name_index_update(s.drop_last(), i, c, name);
    }
}

/// After adding `c`, the step called `name` is `c` if that is its name, and
/// otherwise the one that was there before.
proof fn lemma_step_named_upsert(s: Seq<StepConfigView>, c: StepConfigView, name: Seq<char>)
    ensures
        step_named(upsert(s, c), name) == if name == c.name { Some(c) } else { step_named(s, name) },
{
    lemma_name_index(s, name);
    lemma_name_index(s, c.name);
    match name_index(s, c.name) {
        Some(i) => {
            lemma_name_index_update(s, i, c, name);
            lemma_name_index_update(s, i, c, c.name);
        },
        None => {
            assert(s.push(c).drop_last() =~= s);
        },
    }
}

/// Reading tables on top of `acc`: the step called `name` afterwards is what
/// the last table of that name reads as, or the one `acc` had if no table
/// takes that name.
proof fn lemma_add_step_tables_named(acc: Seq<StepConfigView>, tables: Seq<TomlTable>, name: Seq<char>)
    ensures
        add_step_tables(acc, tables) matches Ok(s) ==> step_named(s, name) == match last_step_named(tables, name) {
            Some(c) => Some(c),
            None => step_named(acc, name),
        },
    decreases tables.len(),
{
    if tables.len() > 0 {
        lemma_add_step_tables_named(acc, tables.drop_last(), name);
        if let Ok(a) = add_step_tables(acc, tables.drop_last()) {
            if let Ok(c) = step_from_table(tables.last()) {
                lemma_step_named_upsert(a, c, name);
            }
        }
    }
}

/// With no two steps of one name, a step is in `s` exactly when it is the
/// step of its name.
proof fn lemma_contains_step_named(s: Seq<StepConfigView>, x: StepConfigView)
    requires
        names_distinct(s),
    ensures
        s.contains(x) <==> step_named(s, x.name) == Some(x),
{
    lemma_name_index(s, x.name);
    if s.contains(x) {
        let k = choose|k: int| 0 <= k < s.len() && s[k] == x;
        assert(s[k].name == x.name);
    }
    if let Some(i) = name_index(s, x.name) {
        if s[i] == x {
            assert(s.contains(x));
        }
    }
}

/// Law: the custom steps of a stage are the global steps and the stage's own
/// steps, merged by name. A step is in the result exactly when it is the
/// result's step of its name, and the step called `name` is what the last
/// global table of that name reads as; where no global table takes that name,
/// it is what the last of the stage's tables of that name reads as; where
/// neither does, there is no step of that name.
pub proof fn stage_steps_merge_by_name(doc: TomlTable, stage: Seq<char>, name: Seq<char>)
    ensures
        stage_steps(doc, stage) matches Ok(s) ==> {
            &&& forall|x: StepConfigView| s.contains(x) <==> step_named(s, x.name) == Some(x)
            &&& step_named(s, name) == match last_step_named(section_step_tables(doc, "global"@), name) {
                Some(c) => Some(c),
                None => last_step_named(section_step_tables(doc, stage), name),
            }
        },
{
    let stage_tables = section_step_tables(doc, stage);
    let global_tables = section_step_tables(doc, "global"@);
    lemma_add_step_tables_named(Seq::empty(), stage_tables, name);
    assert(name_index(Seq::<StepConfigView>::empty(), name) is None);
    if let Ok(a) = add_step_tables(Seq::empty(), stage_tables) {
        lemma_add_step_tables_named(a, global_tables, name);
        stage_steps_names_distinct(doc, stage);
        if let Ok(s) = stage_steps(doc, stage) {
            assert forall|x: StepConfigView| s.contains(x) <==> step_named(s, x.name) == Some(x) by {
                lemma_contains_step_named(s, x);
            }
        }
    }
}

/// Law: a step table is read as a step exactly when its `name` and `command`
/// are strings and exactly one of `before` and `after` is there, a string;
/// the step then carries those strings, and goes before or after the step
/// named by whichever of the two is there. A missing `name` or `command` is
/// reported by its key, in that order; both positions, or neither, are
/// reported as such.
pub proof fn step_tables_are_read_field_by_field(t: TomlTable)
    ensures
        ({
            let name = lookup(t.entries@, "name"@);
            let command = lookup(t.entries@, "command"@);
            let before = lookup(t.entries@, "before"@);
            let after = lookup(t.entries@, "after"@);
            let r = step_from_table(t);
            &&& name is None ==> r == Err::<StepConfigView, StepConfigErrorView>(StepConfigErrorView::MissingField("name"@))
            &&& (name matches Some(TomlValue::Str(_))) && command is None
                ==> r == Err::<StepConfigView, StepConfigErrorView>(StepConfigErrorView::MissingField("command"@))
            &&& (name matches Some(TomlValue::Str(_))) && (command matches Some(TomlValue::Str(_)))
                && before is Some && after is Some
                ==> r == Err::<StepConfigView, StepConfigErrorView>(StepConfigErrorView::AmbiguousPosition)
            &&& (name matches Some(TomlValue::Str(_))) && (command matches Some(TomlValue::Str(_)))
                && before is None && after is None
                ==> r == Err::<StepConfigView, StepConfigErrorView>(StepConfigErrorView::MissingPosition)
            &&& (r matches Ok(c) ==> {
                &&& name matches Some(TomlValue::Str(n)) && c.name == n@
                &&& command matches Some(TomlValue::Str(m)) && c.comand == m@
                &&& c.position == StepPosition::Before ==> (before matches Some(TomlValue::Str(b)) && c.ref_step == b@
                    && after is None)
                &&& c.position == StepPosition::After ==> (after matches Some(TomlValue::Str(a)) && c.ref_step == a@
                    && before is None)
            })
            &&& (name matches Some(TomlValue::Str(_))) && (command matches Some(TomlValue::Str(_)))
                && ((before matches Some(TomlValue::Str(_))) && after is None
                    || (after matches Some(TomlValue::Str(_))) && before is None) ==> r is Ok
        }),
{
}

/// Law: without a steps file there are no custom steps; a steps file that
/// cannot be opened or read is an I/O error; a file that reads as a TOML
/// document gives that document's steps for the stage.
pub proof fn steps_file_outcomes(text: String, stage: Seq<char>)
    ensures
        steps_file_outcome(FileRead::NotFound, stage) == Some(Ok::<Seq<StepConfigView>, StepConfigErrorView>(Seq::empty())),
        steps_file_outcome(FileRead::OpenFailed, stage) == Some(Err::<Seq<StepConfigView>, StepConfigErrorView>(StepConfigErrorView::IoError)),
        steps_file_outcome(FileRead::ReadFailed, stage) == Some(Err::<Seq<StepConfigView>, StepConfigErrorView>(StepConfigErrorView::IoError)),
        toml_document(text@) matches Some(doc) ==> steps_file_outcome(FileRead::Contents(text), stage)
            == Some(stage_steps(doc, stage)),
        toml_document(text@) is None ==> steps_file_outcome(FileRead::Contents(text), stage) is None,
{
}

} // verus!
