//! The application configuration (`.onearchive/config.json`) and the
//! configuration of one workspace (`config.json` in the workspace).
use vstd::prelude::*;
use crate::text::str_eq;

verus! {

/// The settings remembered from the last session.
#[derive(Debug, Clone)]
pub struct LastSettings {
    pub last_workspace: String,
    /// The root directory selected last.
    pub last_root: Option<i64>,
    /// The database used last.
    pub last_db_path: Option<String>,
    pub window_width: u32,
    pub window_height: u32,
    pub window_x: i32,
    pub window_y: i32,
}

/// A workspace known to the application.
#[derive(Debug, Clone)]
pub struct Workspace {
    pub name: String,
    pub path: String,
}

/// The application configuration.
#[derive(Debug, Clone)]
pub struct AppConfig {
    pub workspace: Vec<Workspace>,
    pub last_settings: LastSettings,
}

/// The configuration of one workspace.
#[derive(Debug, Clone)]
pub struct WorkspaceConfig {
    pub db_path: Option<String>,
    pub auto_create_db: Option<bool>,
    pub recursive_scan: Option<bool>,
    pub follow_symlinks: Option<bool>,
}

/// Default window geometry.
pub const DEFAULT_WINDOW_WIDTH: u32 = 1000;
pub const DEFAULT_WINDOW_HEIGHT: u32 = 680;
pub const DEFAULT_WINDOW_X: i32 = 100;
pub const DEFAULT_WINDOW_Y: i32 = 100;

/// The settings of a first session that opens `last_workspace`.
pub open spec fn spec_default_last_settings(last_workspace: String) -> LastSettings {
    LastSettings {
        last_workspace,
        last_root: None,
        last_db_path: None,
        window_width: DEFAULT_WINDOW_WIDTH,
        window_height: DEFAULT_WINDOW_HEIGHT,
        window_x: DEFAULT_WINDOW_X,
        window_y: DEFAULT_WINDOW_Y,
    }
}

/// Fills in defaults for settings that a loaded configuration lacks; every
/// field of the configuration is required, so the configuration is returned
/// as it is.
pub fn merge_with_defaults(config: AppConfig) -> (r: Result<AppConfig, String>)
    ensures
        r == Ok::<AppConfig, String>(config),
{
    Ok(config)
}

/// The configuration written when none exists: no workspace yet, the default
/// workspace path remembered as the last one, and the default window.
pub fn default_app_config(default_workspace: String) -> (r: AppConfig)
    ensures
        r.workspace@.len() == 0,
        r.last_settings == spec_default_last_settings(default_workspace),
{
    AppConfig {
        workspace: Vec::new(),
        last_settings: LastSettings {
            last_workspace: default_workspace,
            last_root: None,
            last_db_path: None,
            window_width: DEFAULT_WINDOW_WIDTH,
            window_height: DEFAULT_WINDOW_HEIGHT,
            window_x: DEFAULT_WINDOW_X,
            window_y: DEFAULT_WINDOW_Y,
        },
    }
}

/// The configuration of a workspace that has none yet: its database at
/// `db_path`, created on demand, recursive scans, symbolic links not
/// followed.
pub fn default_workspace_config(db_path: String) -> (r: WorkspaceConfig)
    ensures
        r.db_path == Some(db_path),
        r.auto_create_db == Some(true),
        r.recursive_scan == Some(true),
        r.follow_symlinks == Some(false),
{
    WorkspaceConfig {
        db_path: Some(db_path),
        auto_create_db: Some(true),
        recursive_scan: Some(true),
        follow_symlinks: Some(false),
    }
}

/// Whether `c` is white space in the sense of `char::is_whitespace` (the
/// Unicode property `White_Space`).
pub open spec fn is_white_space(c: char) -> bool {
    ||| ('\u{9}' <= c && c <= '\u{d}')
    ||| c == ' '
    ||| c == '\u{85}'
    ||| c == '\u{a0}'
    ||| c == '\u{1680}'
    ||| ('\u{2000}' <= c && c <= '\u{200a}')
    ||| c == '\u{2028}'
    ||| c == '\u{2029}'
    ||| c == '\u{202f}'
    ||| c == '\u{205f}'
    ||| c == '\u{3000}'
}

/// `s` without its leading white space.
pub open spec fn trim_start_spec(s: Seq<char>) -> Seq<char>
    decreases s.len(),
{
    if s.len() > 0 && is_white_space(s[0]) {
        trim_start_spec(s.subrange(1, s.len() as int))
    } else {
        s
    }
}

/// `s` without its trailing white space.
pub open spec fn trim_end_spec(s: Seq<char>) -> Seq<char>
    decreases s.len(),
{
    if s.len() > 0 && is_white_space(s.last()) {
        trim_end_spec(s.drop_last())
    } else {
        s
    }
}

/// `s` without leading and trailing white space.
pub open spec fn trimmed(s: Seq<char>) -> Seq<char> {
    trim_end_spec(trim_start_spec(s))
}

/// `str::trim`: the result is `s` without leading and trailing white space,
/// white space being what `char::is_whitespace` accepts.
#[verifier::external_body]
fn trim_text(s: &str) -> (r: &str)
    ensures
        r@ == trimmed(s@),
{
    s.trim()
}

/// Whether configuration text carries nothing: only white space, or `{}`.
pub open spec fn spec_is_blank_config(content: Seq<char>) -> bool {
    trimmed(content).len() == 0 || trimmed(content) == "{}"@
}

/// Whether configuration text carries nothing: only white space, or `{}`.
pub fn is_blank_config(content: &str) -> (r: bool)
    ensures
        r == spec_is_blank_config(content@),
{
    let t = trim_text(content);
    t.is_empty() || str_eq(t, "{}")
}

/// Whether every character of `s` is white space.
pub open spec fn all_white_space(s: Seq<char>) -> bool {
    forall|i: int| 0 <= i < s.len() ==> is_white_space(#[trigger] s[i])
}

/// Leading white space does not change what is left after trimming the start.
pub proof fn lemma_trim_start_skips_white_space(a: Seq<char>, s: Seq<char>)
    requires
        all_white_space(a),
    ensures
        trim_start_spec(a + s) == trim_start_spec(s),
    decreases a.len(),
{
    if a.len() == 0 {
        assert(a + s =~= s);
    } else {
        let rest = a.subrange(1, a.len() as int);
        assert((a + s)[0] == a[0]);
        assert((a + s).subrange(1, (a + s).len() as int) =~= rest + s);
        assert forall|i: int| 0 <= i < rest.len() implies is_white_space(#[trigger] rest[i]) by {
            assert(rest[i] == a[i + 1]);
        }
        lemma_trim_start_skips_white_space(rest, s);
    }
}

/// Trimming the start of `c + b` trims the start of `c`, and reaches into
/// `b` only when `c` is all white space.
pub proof fn lemma_trim_start_append(c: Seq<char>, b: Seq<char>)
    ensures
        trim_start_spec(c).len() > 0 ==> trim_start_spec(c + b) == trim_start_spec(c) + b,
        trim_start_spec(c).len() == 0 ==> trim_start_spec(c + b) == trim_start_spec(b),
    decreases c.len(),
{
    if c.len() == 0 {
        assert(c + b =~= b);
    } else {
        assert((c + b)[0] == c[0]);
        if is_white_space(c[0]) {
            let rest = c.subrange(1, c.len() as int);
            assert((c + b).subrange(1, (c + b).len() as int) =~= rest + b);
            lemma_trim_start_append(rest, b);
        }
    }
}

/// Trailing white space does not change what is left after trimming the end.
pub proof fn lemma_trim_end_skips_white_space(s: Seq<char>, b: Seq<char>)
    requires
        all_white_space(b),
    ensures
        trim_end_spec(s + b) == trim_end_spec(s),
    decreases b.len(),
{
    if b.len() == 0 {
        assert(s + b =~= s);
    } else {
        let rest = b.drop_last();
        assert((s + b).last() == b.last());
        assert(b.last() == b[b.len() - 1]);
        assert((s + b).drop_last() =~= s + rest);
        assert forall|i: int| 0 <= i < rest.len() implies is_white_space(#[trigger] rest[i]) by {
            assert(rest[i] == b[i]);
        }
        lemma_trim_end_skips_white_space(s, rest);
    }
}

/// Trimming ignores white space added around a text.
pub proof fn lemma_trimmed_ignores_surrounding_white_space(a: Seq<char>, c: Seq<char>, b: Seq<char>)
    requires
        all_white_space(a),
        all_white_space(b),
    ensures
        trimmed(a + c + b) == trimmed(c),
{
    assert(a + c + b =~= a + (c + b));
    lemma_trim_start_skips_white_space(a, c + b);
    lemma_trim_start_append(c, b);
    if trim_start_spec(c).len() > 0 {
        lemma_trim_end_skips_white_space(trim_start_spec(c), b);
    } else {
        assert(b + Seq::<char>::empty() =~= b);
        lemma_trim_start_skips_white_space(b, Seq::<char>::empty());
        assert(trim_start_spec(Seq::<char>::empty()) =~= Seq::<char>::empty());
    }
}

/// Whether configuration text is blank depends on its trimmed text alone:
/// white space added before or after a text never changes the answer; text
/// that is only white space, or `{}` with white space around it, is blank;
/// and text whose first character that is not white space is neither `{`
/// nor white space is not blank.
pub proof fn lemma_blank_config_ignores_surrounding_white_space(a: Seq<char>, c: Seq<char>, b: Seq<char>)
    requires
        all_white_space(a),
        all_white_space(b),
    ensures
        spec_is_blank_config(a + c + b) == spec_is_blank_config(c),
        spec_is_blank_config(a + b),
        spec_is_blank_config(a + "{}"@ + b),
        c.len() > 0 && !is_white_space(c[0]) && c[0] != '{' ==> !spec_is_blank_config(a + c + b),
{
    lemma_trimmed_ignores_surrounding_white_space(a, c, b);
    let e = Seq::<char>::empty();
    lemma_trimmed_ignores_surrounding_white_space(a, e, b);
    assert(a + e + b =~= a + b);
    assert(trim_start_spec(e) == e);
    assert(trim_end_spec(e) == e);
    reveal_strlit("{}");
    let t = "{}"@;
    assert(t.len() == 2 && t[0] == '{' && t[1] == '}');
    lemma_trimmed_ignores_surrounding_white_space(a, t, b);
    assert(!is_white_space(t[0]));
    assert(trim_start_spec(t) == t);
    assert(!is_white_space(t.last()));
    assert(trim_end_spec(t) == t);
    if c.len() > 0 && !is_white_space(c[0]) && c[0] != '{' {
        assert(trim_start_spec(c) == c);
        lemma_trim_end_keeps_first(c);
        assert(trimmed(c).len() > 0 && trimmed(c)[0] == c[0]);
        assert(trimmed(c) != t);
    }
}

/// Trimming the end of a text that starts with a character that is not
/// white space keeps that character first.
pub proof fn lemma_trim_end_keeps_first(c: Seq<char>)
    requires
        c.len() > 0,
        !is_white_space(c[0]),
    ensures
        trim_end_spec(c).len() > 0,
        trim_end_spec(c)[0] == c[0],
    decreases c.len(),
{
    if is_white_space(c.last()) {
        assert(c.len() > 1) by {
            if c.len() == 1 {
                assert(c.last() == c[0]);
            }
        }
        let d = c.drop_last();
        assert(d[0] == c[0]);
        lemma_trim_end_keeps_first(d);
    }
}

/// Chooses the configuration to use when the application starts, from the
/// text of the configuration file (`None` when there is no file) and the
/// configuration parsed from it (`None` when it does not parse). A missing,
/// blank or unreadable file gives the default configuration, which is then
/// to be saved (the second result); otherwise the parsed configuration is
/// used with its defaults filled in.
pub fn resolve_app_config(
    content: Option<&str>,
    parsed: Option<AppConfig>,
    default_config: AppConfig,
) -> (r: (AppConfig, bool))
    ensures
        ({
            let use_default = match content {
                None => true,
                Some(c) => spec_is_blank_config(c@) || parsed is None,
            };
            &&& use_default ==> r == (default_config, true)
            &&& !use_default ==> r == (parsed.unwrap(), false)
        }),
{
    match content {
        None => (default_config, true),
        Some(c) => {
            if is_blank_config(c) {
                (default_config, true)
            } else {
                match parsed {
                    None => (default_config, true),
                    Some(config) => match merge_with_defaults(config) {
                        Ok(merged) => (merged, false),
                        Err(_) => (default_config, true),
                    },
                }
            }
        },
    }
}

} // verus!
