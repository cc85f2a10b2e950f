use vstd::prelude::*;

use crate::text::{chars_of, string_from_chars};
use crate::words::{join_spaces, join_words, lemma_join_split, lemma_split_nonempty, split_spaces, split_words};

verus! {

/// What `minijinja` renders for `template` when the only variable in the context is
/// `working_dir` (`None` when rendering fails).
pub uninterp spec fn template_render(template: Seq<char>, working_dir: Seq<char>) -> Option<Seq<char>>;

/// What `path_clean::clean` gives for `path`, as text.
pub uninterp spec fn cleaned_path(path: Seq<char>) -> Seq<char>;

/// Text with no `{{`, `{%` or `{#` (where `minijinja` tags start) that does not end in a
/// line break (which `minijinja` drops from the end of a template).
pub open spec fn plain_template(t: Seq<char>) -> bool {
    &&& forall|i: int| 0 <= i < t.len() - 1 && #[trigger] t[i] == '{' ==> t[i + 1] != '{' && t[i + 1] != '%' && t[i + 1] != '#'
    &&& (t.len() == 0 || (t.last() != '\n' && t.last() != '\r'))
}

/// Renders `template` with `minijinja` (`Environment::new().render_str`), the context
/// holding `working_dir` under the name `working_dir`.
/// Contract: the outcome is the one `template_render` names for these two arguments;
/// the error carries the engine's message. With the default delimiters the lexer
/// (`compiler/lexer.rs`) makes a template without a tag start one piece of text, after
/// dropping one trailing `\n` and then one trailing `\r`, and that text is output as it
/// is: so a plain template renders as itself.
#[verifier::external_body]
fn render_working_dir(template: &str, working_dir: &str) -> (r: Result<String, String>)
    ensures
        match r {
            Ok(s) => template_render(template@, working_dir@) == Some(s@),
            Err(_) => template_render(template@, working_dir@).is_none(),
        },
        plain_template(template@) ==> (r is Ok && r->Ok_0@ == template@),
{
    let ctx = std::collections::BTreeMap::from([("working_dir", working_dir.to_string())]);
    match minijinja::Environment::new().render_str(template, ctx) {
        Ok(s) => Ok(s),
        Err(e) => Err(e.to_string()),
    }
}

/// Lexically cleans a path with `path_clean::clean` and displays the result.
/// Contract: the text is the one `cleaned_path` names for `path`.
#[verifier::external_body]
fn clean_path(path: &str) -> (r: String)
    ensures
        r@ == cleaned_path(path@),
{
    path_clean::clean(path).display().to_string()
}

/// What `shellexpand::tilde_with_context` makes of `word` when the home directory is `home`.
pub uninterp spec fn tilde_expanded(word: Seq<char>, home: Seq<char>) -> Seq<char>;

/// A word that starts with the tilde of the user's home: `~` alone or `~/`.
pub open spec fn home_tilde_word(w: Seq<char>) -> bool {
    w.len() >= 1 && w[0] == '~' && (w.len() == 1 || w[1] == '/')
}

/// What is known of tilde expansion with home directory `home`: a word starting with `~`
/// alone or `~/` gets `home` in place of the `~`, and a word not starting with `~` stays.
pub open spec fn tilde_facts(w: Seq<char>, home: Seq<char>) -> bool {
    &&& home_tilde_word(w) ==> tilde_expanded(w, home) == home + w.drop_first()
    &&& !(w.len() >= 1 && w[0] == '~') ==> tilde_expanded(w, home) == w
}

/// Expands a leading `~` of `word` to `home` with `shellexpand::tilde_with_context`.
/// Contract: the result is the one `tilde_expanded` names for the word and the home
/// directory; as the source shows, `~` alone or followed by `/` becomes `home` followed by the
/// rest of the word, and a word not starting with `~` comes back unchanged (other words
/// starting with `~`, such as `~user`, are left to the name).
#[verifier::external_body]
fn expand_tilde(word: &str, home: &str) -> (r: String)
    ensures
        r@ == tilde_expanded(word@, home@),
        home_tilde_word(word@) ==> r@ == home@ + word@.drop_first(),
        !(word@.len() >= 1 && word@[0] == '~') ==> r@ == word@,
{
    shellexpand::tilde_with_context(word, || Some(home)).into_owned()
}

/// The user's home directory as `shellexpand::tilde` finds it, read from the environment
/// by expanding `~` alone. When no home directory is known, the text is `~` itself, with
/// which expansion leaves every word unchanged. Nothing is promised of the text.
#[verifier::external_body]
fn home_directory() -> (r: String) {
    shellexpand::tilde("~").into_owned()
}

/// `Path::join` for a relative `child`: a separator is inserted unless `parent` is empty
/// or already ends with one.
pub open spec fn path_join(parent: Seq<char>, child: Seq<char>) -> Seq<char> {
    if parent.len() == 0 {
        child
    } else if parent.last() == '/' {
        parent + child
    } else {
        parent + seq!['/'] + child
    }
}

/// A command word that starts with `.` is made absolute against `parent`.
pub open spec fn qualify_word(parent: Seq<char>, word: Seq<char>) -> Seq<char> {
    if word.len() > 0 && word[0] == '.' {
        cleaned_path(path_join(parent, word))
    } else {
        word
    }
}

/// The command text with its first word qualified against `parent`; the other words stay.
pub open spec fn command_with_path(parent: Seq<char>, exec: Seq<char>) -> Seq<char> {
    let parts = split_spaces(exec);
    join_spaces(parts.update(0, qualify_word(parent, parts[0])))
}

/// The command `cmd` with every space-separated word tilde-expanded with home `home`.
pub open spec fn expand_words(cmd: Seq<char>, home: Seq<char>) -> Seq<char> {
    join_spaces(split_spaces(cmd).map_values(|w: Seq<char>| tilde_expanded(w, home)))
}

/// The tilde facts hold for every word of `cmd`.
pub open spec fn word_tilde_facts(cmd: Seq<char>, home: Seq<char>) -> bool {
    forall|i: int| 0 <= i < split_spaces(cmd).len() ==> tilde_facts(#[trigger] split_spaces(cmd)[i], home)
}

/// The text a command gets from `template` with home directory `home`: rendered with the
/// working directory, its first word qualified against `containing_dir`, then every word
/// tilde-expanded; `None` when the template does not render.
pub open spec fn prepared_text(containing_dir: Seq<char>, working_dir: Seq<char>, template: Seq<char>, home: Seq<char>) -> Option<Seq<char>> {
    match template_render(template, working_dir) {
        Some(t) => Some(expand_words(command_with_path(containing_dir, t), home)),
        None => None,
    }
}

/// `out` is the command `template` gives for some home directory.
pub open spec fn prepared_command(
    containing_dir: Seq<char>,
    working_dir: Seq<char>,
    template: Seq<char>,
    out: Seq<char>,
) -> bool {
    exists|home: Seq<char>| #[trigger] prepared_text(containing_dir, working_dir, template, home) == Some(out)
}

/// The commands `cmds` are the templates prepared, position by position, with home `home`.
pub open spec fn commands_prepared(
    containing_dir: Seq<char>,
    working_dir: Seq<char>,
    templates: Seq<String>,
    cmds: Seq<Seq<char>>,
    home: Seq<char>,
) -> bool {
    cmds.len() == templates.len() && forall|i: int|
        0 <= i < templates.len() ==> prepared_text(containing_dir, working_dir, templates[i]@, home) == Some(#[trigger] cmds[i])
}

/// The commands `cmds` are the templates prepared with one home directory.
pub open spec fn all_prepared(containing_dir: Seq<char>, working_dir: Seq<char>, templates: Seq<String>, cmds: Seq<Seq<char>>) -> bool {
    exists|home: Seq<char>| #[trigger] commands_prepared(containing_dir, working_dir, templates, cmds, home)
}

/// A command whose first word does not start with `.` is left exactly as it is by the
/// qualification of its first word.
pub proof fn lemma_unqualified_command_unchanged(parent: Seq<char>, exec: Seq<char>)
    requires
        !(split_spaces(exec)[0].len() > 0 && split_spaces(exec)[0][0] == '.'),
    ensures
        command_with_path(parent, exec) == exec,
{
    lemma_split_nonempty(exec);
    let parts = split_spaces(exec);
    assert(parts.update(0, qualify_word(parent, parts[0])) =~= parts);
    lemma_join_split(exec);
}

/// A command that `DoctorCommand::try_new` leaves exactly as written: no template tags,
/// a first word that does not start with `.`, and no word starting with `~`.
pub open spec fn plain_command(cmd: Seq<char>) -> bool {
    &&& plain_template(cmd)
    &&& !(split_spaces(cmd)[0].len() > 0 && split_spaces(cmd)[0][0] == '.')
    &&& forall|i: int| 0 <= i < split_spaces(cmd).len() ==> !(#[trigger] split_spaces(cmd)[i].len() >= 1 && split_spaces(cmd)[i][0] == '~')
}

/// Without a word that starts with `~`, tilde expansion changes nothing.
proof fn lemma_no_tilde_unchanged(cmd: Seq<char>, home: Seq<char>)
    requires
        word_tilde_facts(cmd, home),
        forall|i: int| 0 <= i < split_spaces(cmd).len() ==> !(#[trigger] split_spaces(cmd)[i].len() >= 1 && split_spaces(cmd)[i][0] == '~'),
    ensures
        expand_words(cmd, home) == cmd,
{
    let parts = split_spaces(cmd);
    assert(parts.map_values(|w: Seq<char>| tilde_expanded(w, home)) =~= parts) by {
        assert forall|i: int| 0 <= i < parts.len() implies tilde_expanded(parts[i], home) == parts[i] by {
            assert(tilde_facts(parts[i], home));
        }
    }
    lemma_join_split(cmd);
}

/// Qualifies the first word of `exec` against `parent_dir` when it starts with `.`.
pub fn extract_command_path(parent_dir: &str, exec: &str) -> (r: String)
    ensures
        r@ == command_with_path(parent_dir@, exec@),
{
    let cs = chars_of(exec);
    let mut words = split_words(&cs);
    proof {
        lemma_split_nonempty(exec@);
    }
    let ghost parts = words@.map_values(|w: Vec<char>| w@);
    let first = words[0].clone();
    if first.len() > 0 && first[0] == '.' {
        let pc = chars_of(parent_dir);
        let mut joined: Vec<char> = Vec::new();
        let mut i: usize = 0;
        while i < pc.len()
            invariant
                i <= pc.len(),
                joined@ == pc@.take(i as int),
            decreases pc.len() - i,
        {
            joined.push(pc[i]);
            assert(pc@.take(i as int + 1) =~= pc@.take(i as int).push(pc@[i as int]));
            i = i + 1;
        }
        assert(pc@.take(pc.len() as int) =~= pc@);
        if pc.len() > 0 && pc[pc.len() - 1] != '/' {
            joined.push('/');
        }
        let mut j: usize = 0;
        let ghost base = joined@;
        while j < first.len()
            invariant
                j <= first.len(),
                joined@ == base + first@.take(j as int),
            decreases first.len() - j,
        {
            joined.push(first[j]);
            assert(first@.take(j as int + 1) =~= first@.take(j as int).push(first@[j as int]));
            j = j + 1;
        }
        assert(first@.take(first.len() as int) =~= first@);
        assert(joined@ =~= path_join(parent_dir@, first@));
        let joined_str = string_from_chars(&joined);
        let cleaned = clean_path(joined_str.as_str());
        words.set(0, chars_of(cleaned.as_str()));
    }
    assert(words@.map_values(|w: Vec<char>| w@) =~= parts.update(0, qualify_word(parent_dir@, parts[0])));
    let out = join_words(&words);
    string_from_chars(&out)
}

/// Tilde-expands every space-separated word of `command` with home directory `home`.
pub fn expand_command(command: &str, home: &str) -> (r: String)
    ensures
        r@ == expand_words(command@, home@),
        word_tilde_facts(command@, home@),
{
    let cs = chars_of(command);
    let words = split_words(&cs);
    let ghost parts = words@.map_values(|w: Vec<char>| w@);
    let mut out: Vec<Vec<char>> = Vec::new();
    let mut i: usize = 0;
    while i < words.len()
        invariant
            i <= words.len(),
            parts == words@.map_values(|w: Vec<char>| w@),
            parts == split_spaces(command@),
            out.len() == i,
            forall|k: int| 0 <= k < i ==> (#[trigger] out@[k])@ == tilde_expanded(parts[k], home@),
            forall|k: int| 0 <= k < i ==> tilde_facts(#[trigger] parts[k], home@),
        decreases words.len() - i,
    {
        let w = string_from_chars(&words[i]);
        let e = expand_tilde(w.as_str(), home);
        out.push(chars_of(e.as_str()));
        i = i + 1;
    }
    let joined = join_words(&out);
    let ghost rs = out@.map_values(|w: Vec<char>| w@);
    assert(rs =~= parts.map_values(|w: Seq<char>| tilde_expanded(w, home@)));
    assert(joined@ == join_spaces(rs));
    string_from_chars(&joined)
}

/// Renders `{{ working_dir }}` (and any other template syntax) in a command.
pub fn substitute_templates(working_dir: &str, command: &str) -> (r: Result<String, String>)
    ensures
        match r {
            Ok(s) => template_render(command@, working_dir@) == Some(s@),
            Err(_) => template_render(command@, working_dir@).is_none(),
        },
        plain_template(command@) ==> (r matches Ok(s) && s@ == command@),
{
    render_working_dir(command, working_dir)
}

/// A shell command of a doctor action, ready to run.
#[derive(Debug, PartialEq, Clone)]
pub struct DoctorCommand {
    text: String,
}

impl View for DoctorCommand {
    type V = Seq<char>;

    closed spec fn view(&self) -> Seq<char> {
        self.text@
    }
}

impl DoctorCommand {
    /// Renders the template, qualifies the first word against `containing_dir` and
    /// expands tildes in every word with the home directory `home`.
    pub fn try_new_with_home(containing_dir: &str, working_dir: &str, command: &str, home: &str) -> (r: Result<Self, String>)
        ensures
            match r {
                Ok(c) => prepared_text(containing_dir@, working_dir@, command@, home@) == Some(c@),
                Err(_) => template_render(command@, working_dir@).is_none(),
            },
            r is Ok <==> template_render(command@, working_dir@) is Some,
            // every word starting with `~` alone or `~/` gets the home directory
            (template_render(command@, working_dir@) matches Some(t) ==> word_tilde_facts(
                command_with_path(containing_dir@, t),
                home@,
            )),
            // a plain command is used exactly as written
            plain_command(command@) ==> (r matches Ok(c) && c@ == command@),
    {
        let rendered = substitute_templates(working_dir, command)?;
        let qualified = extract_command_path(containing_dir, rendered.as_str());
        let expanded = expand_command(qualified.as_str(), home);
        proof {
            if plain_command(command@) {
                assert(rendered@ == command@);
                lemma_unqualified_command_unchanged(containing_dir@, rendered@);
                lemma_no_tilde_unchanged(qualified@, home@);
            }
        }
        Ok(DoctorCommand::from_str(expanded.as_str()))
    }

    /// Renders the template, qualifies the first word against `containing_dir` and
    /// expands tildes in every word with the user's home directory.
    pub fn try_new(containing_dir: &str, working_dir: &str, command: &str) -> (r: Result<Self, String>)
        ensures
            match r {
                Ok(c) => prepared_command(containing_dir@, working_dir@, command@, c@),
                Err(_) => template_render(command@, working_dir@).is_none(),
            },
            r is Ok <==> template_render(command@, working_dir@) is Some,
            // a plain command is used exactly as written
            plain_command(command@) ==> (r matches Ok(c) && c@ == command@),
    {
        let home = home_directory();
        DoctorCommand::try_new_with_home(containing_dir, working_dir, command, home.as_str())
    }

    /// The command exactly as given: no rendering, qualification or expansion.
    pub fn from_str(cmd: &str) -> (r: Self)
        ensures
            r@ == cmd@,
    {
        DoctorCommand { text: string_from_chars(&chars_of(cmd)) }
    }

    /// The command text.
    pub fn text(&self) -> (r: &str)
        ensures
            r@ == self@,
    {
        self.text.as_str()
    }
}

/// The commands of one check or fix, in order.
#[derive(Debug, PartialEq, Clone)]
pub struct DoctorCommands {
    commands: Vec<DoctorCommand>,
}

impl View for DoctorCommands {
    type V = Seq<Seq<char>>;

    closed spec fn view(&self) -> Seq<Seq<char>> {
        self.commands@.map_values(|c: DoctorCommand| c@)
    }
}

impl DoctorCommands {
    /// Prepares every command with `DoctorCommand::try_new_with_home`, all with the home
    /// directory `home`; fails on the first command whose template does not render.
    pub fn from_commands_with_home(containing_dir: &str, working_dir: &str, commands: &[String], home: &str) -> (r: Result<DoctorCommands, String>)
        ensures
            match r {
                Ok(cs) => commands_prepared(containing_dir@, working_dir@, commands@, cs@, home@),
                Err(_) => exists|i: int|
                    0 <= i < commands@.len() && template_render(#[trigger] commands@[i]@, working_dir@).is_none(),
            },
            // the list is built exactly when each of its commands can be built alone
            r is Ok <==> forall|i: int| 0 <= i < commands@.len() ==> template_render(#[trigger] commands@[i]@, working_dir@) is Some,
    {
        let mut out: Vec<DoctorCommand> = Vec::new();
        let mut i: usize = 0;
        while i < commands.len()
            invariant
                i <= commands@.len(),
                out.len() == i,
                forall|k: int|
                    0 <= k < i ==> prepared_text(containing_dir@, working_dir@, commands@[k]@, home@) == Some(
                        #[trigger] out@[k]@,
                    ),
            decreases commands@.len() - i,
        {
            match DoctorCommand::try_new_with_home(containing_dir, working_dir, commands[i].as_str(), home) {
                Ok(c) => {
                    out.push(c);
                },
                Err(e) => {
                    assert(template_render(commands@[i as int]@, working_dir@).is_none());
                    return Err(e);
                },
            }
            i = i + 1;
        }
        let r = DoctorCommands { commands: out };
        assert(forall|k: int| 0 <= k < commands@.len() ==> r@[k] == out@[k]@);
        assert forall|k: int| 0 <= k < commands@.len() implies template_render(#[trigger] commands@[k]@, working_dir@) is Some by {
            assert(prepared_text(containing_dir@, working_dir@, commands@[k]@, home@) == Some(out@[k]@));
        }
        Ok(r)
    }

    /// Prepares every command with the user's home directory, read once for the whole
    /// list, as `from_commands_with_home` does; fails on the first command whose template does
    /// not render.
    pub fn from_commands(containing_dir: &str, working_dir: &str, commands: &[String]) -> (r: Result<DoctorCommands, String>)
        ensures
            match r {
                Ok(cs) => all_prepared(containing_dir@, working_dir@, commands@, cs@),
                Err(_) => exists|i: int|
                    0 <= i < commands@.len() && template_render(#[trigger] commands@[i]@, working_dir@).is_none(),
            },
            r is Ok <==> forall|i: int| 0 <= i < commands@.len() ==> template_render(#[trigger] commands@[i]@, working_dir@) is Some,
    {
        let home = home_directory();
        DoctorCommands::from_commands_with_home(containing_dir, working_dir, commands, home.as_str())
    }

    /// Commands taken exactly as given.
    pub fn from(cmds: Vec<&str>) -> (r: DoctorCommands)
        ensures
            r@.len() == cmds@.len(),
            forall|i: int| 0 <= i < cmds@.len() ==> #[trigger] r@[i] == cmds@[i]@,
    {
        DoctorCommands::from_strs(&cmds)
    }

    /// Commands taken exactly as given.
    pub fn from_strs(cmds: &Vec<&str>) -> (r: DoctorCommands)
        ensures
            r@.len() == cmds@.len(),
            forall|i: int| 0 <= i < cmds@.len() ==> #[trigger] r@[i] == cmds@[i]@,
    {
        let mut out: Vec<DoctorCommand> = Vec::new();
        let mut i: usize = 0;
        while i < cmds.len()
            invariant
                i <= cmds@.len(),
                out.len() == i,
                forall|k: int| 0 <= k < i ==> #[trigger] out@[k]@ == cmds@[k]@,
            decreases cmds@.len() - i,
        {
            out.push(DoctorCommand::from_str(cmds[i]));
            i = i + 1;
        }
        DoctorCommands { commands: out }
    }

    /// The commands, in order.
    pub fn as_slice(&self) -> (r: &[DoctorCommand])
        ensures
            r@.map_values(|c: DoctorCommand| c@) == self@,
    {
        self.commands.as_slice()
    }

    /// An iterator over the commands, in order.
    pub fn iter(&self) -> (it: std::slice::Iter<'_, DoctorCommand>)
        ensures
            vstd::std_specs::iter::IteratorSpec::remaining(&it).map_values(|c: &DoctorCommand| (*c)@) == self@,
    {
        broadcast use vstd::std_specs::slice::axiom_spec_slice_iter;
        let it = self.commands.as_slice().iter();
        assert(vstd::std_specs::iter::IteratorSpec::remaining(&it).map_values(|c: &DoctorCommand| (*c)@) =~= self@);
        it
    }

    /// Number of commands.
    pub fn len(&self) -> (n: usize)
        ensures
            n == self@.len(),
    {
        self.commands.len()
    }
}

impl<'a> IntoIterator for &'a DoctorCommands {
    type Item = &'a DoctorCommand;
    type IntoIter = std::slice::Iter<'a, DoctorCommand>;

    fn into_iter(self) -> (it: Self::IntoIter)
        ensures
            vstd::std_specs::iter::IteratorSpec::remaining(&it).map_values(|c: &DoctorCommand| (*c)@) == self@,
    {
        self.iter()
    }
}

} // verus!
