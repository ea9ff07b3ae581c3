//! Decisions of the Wine branch of the wizard.
use vstd::prelude::*;
use vstd::string::*;
use crate::kv::Kv;
use crate::message::Msg;
use crate::task::{Step, Task};

verus! {

/// Screen that "previous" leads to from the platform screen and each screen of
/// the Wine branch.
pub open spec fn prev_spec(m: Msg) -> Option<Msg> {
    match m {
        Msg::DrawPlatform => Some(Msg::DrawWelcome),
        Msg::DrawWineName => Some(Msg::DrawPlatform),
        Msg::DrawWineIcon => Some(Msg::DrawWineName),
        Msg::DrawWineConfigure => Some(Msg::DrawWineIcon),
        Msg::DrawWineTricks => Some(Msg::DrawWineConfigure),
        Msg::DrawWineEnvironment => Some(Msg::DrawWineConfigure),
        Msg::DrawWineRom => Some(Msg::DrawWineTricks),
        Msg::DrawWineCompress => Some(Msg::DrawWineRom),
        _ => None,
    }
}

/// "Previous" on screen `m`: a plain move, with no side effect.
pub fn prev(m: Msg) -> (r: Option<Msg>)
    ensures
        r == prev_spec(m),
{
    match m {
        Msg::DrawPlatform => Some(Msg::DrawWelcome),
        Msg::DrawWineName => Some(Msg::DrawPlatform),
        Msg::DrawWineIcon => Some(Msg::DrawWineName),
        Msg::DrawWineConfigure => Some(Msg::DrawWineIcon),
        Msg::DrawWineTricks => Some(Msg::DrawWineConfigure),
        Msg::DrawWineEnvironment => Some(Msg::DrawWineConfigure),
        Msg::DrawWineRom => Some(Msg::DrawWineTricks),
        Msg::DrawWineCompress => Some(Msg::DrawWineRom),
        _ => None,
    }
}

/// Screen that "next" leads to, on the Wine screens where it is a plain move.
pub open spec fn next_spec(m: Msg) -> Option<Msg> {
    match m {
        Msg::DrawWineName => Some(Msg::DrawWineIcon),
        Msg::DrawWineIcon => Some(Msg::DrawWineConfigure),
        Msg::DrawWineTricks => Some(Msg::DrawWineRom),
        Msg::DrawWineCompress => Some(Msg::DrawCreator),
        _ => None,
    }
}

/// "Next" on screen `m`, where it needs no check.
pub fn next(m: Msg) -> (r: Option<Msg>)
    ensures
        r == next_spec(m),
{
    match m {
        Msg::DrawWineName => Some(Msg::DrawWineIcon),
        Msg::DrawWineIcon => Some(Msg::DrawWineConfigure),
        Msg::DrawWineTricks => Some(Msg::DrawWineRom),
        Msg::DrawWineCompress => Some(Msg::DrawCreator),
        _ => None,
    }
}

/// View of an argument list.
pub open spec fn args_view(a: Vec<String>) -> Seq<Seq<char>> {
    a@.map_values(|s: String| s@)
}

/// Views of the arguments of each command.
pub open spec fn commands_view(c: Seq<Vec<String>>) -> Seq<Seq<Seq<char>>> {
    c.map_values(|a: Vec<String>| args_view(a))
}

/// `parts`, then `last`, as owned arguments.
fn strings_then(parts: &Vec<&str>, last: String) -> (r: Vec<String>)
    ensures
        args_view(r) == parts@.map_values(|s: &str| s@).push(last@),
{
    let mut r = strings(parts);
    let ghost before = r@;
    r.push(last);
    assert(args_view(r) =~= before.map_values(|s: String| s@).push(last@));
    r
}

fn strings(parts: &Vec<&str>) -> (r: Vec<String>)
    ensures
        r@.map_values(|s: String| s@) == parts@.map_values(|s: &str| s@),
{
    let mut r: Vec<String> = Vec::new();
    let mut i: usize = 0;
    while i < parts.len()
        invariant
            i <= parts.len(),
            r@.map_values(|s: String| s@) == parts@.take(i as int).map_values(|s: &str| s@),
        decreases parts.len() - i,
    {
        let ghost before = r@;
        r.push(String::from_str(parts[i]));
        proof {
            assert(r@.map_values(|s: String| s@) =~= before.map_values(|s: String| s@).push(
                parts@[i as int]@,
            ));
            assert(parts@.take(i as int + 1) =~= parts@.take(i as int).push(parts@[i as int]));
            assert(r@.map_values(|s: String| s@) =~= parts@.take(i as int + 1).map_values(
                |s: &str| s@,
            ));
        }
        i = i + 1;
    }
    assert(parts@.take(i as int) =~= parts@);
    r
}

/// "Next" on the configure screen. Without a Wine prefix the prefix is made
/// first, and the library screen is shown once that succeeded.
pub fn configure_next(prefix_exists: bool) -> (r: Step)
    ensures
        prefix_exists ==> r == Step::Show(Msg::DrawWineTricks),
        !prefix_exists ==> (r matches Step::Run(t) && t.next == Some(Msg::DrawWineTricks)
            && commands_view(t.commands@) == seq![
            seq!["install"@, "winetricks"@, "fontsmooth=rgb"@],
        ]),
{
    if prefix_exists {
        Step::Show(Msg::DrawWineTricks)
    } else {
        let parts = vec!["install", "winetricks", "fontsmooth=rgb"];
        let args = strings(&parts);
        assert(args_view(args) =~= seq!["install"@, "winetricks"@, "fontsmooth=rgb"@]);
        let commands = vec![args];
        assert(commands_view(commands@) =~= seq![
            seq!["install"@, "winetricks"@, "fontsmooth=rgb"@],
        ]);
        Step::Run(Task { commands, next: Some(Msg::DrawWineTricks), keep_going: false })
    }
}

/// An action of the configure screen.
#[derive(Clone, Copy, Debug, PartialEq, Eq, Structural)]
pub enum ConfigureEntry {
    Dxvk,
    Vkd3d,
    Regedit,
    Uninstaller,
    WinetricksGui,
    /// A winetricks verb typed by the user.
    CustomWinetricks,
    /// A wine command typed by the user.
    CustomWine,
    Environment,
}

/// Arguments of the packaging tool for a configure action, given what the user
/// typed where the action asks for input.
pub open spec fn configure_args_spec(e: ConfigureEntry, input: Seq<char>) -> Seq<Seq<char>> {
    match e {
        ConfigureEntry::Dxvk => seq!["install"@, "winetricks"@, "-f"@, "dxvk"@],
        ConfigureEntry::Vkd3d => seq!["install"@, "winetricks"@, "-f"@, "vkd3d"@],
        ConfigureEntry::Regedit => seq!["install"@, "wine"@, "regedit"@],
        ConfigureEntry::Uninstaller => seq!["install"@, "wine"@, "uninstaller"@],
        ConfigureEntry::WinetricksGui => seq!["install"@, "winetricks"@, "--gui"@],
        ConfigureEntry::CustomWinetricks => seq!["install"@, "winetricks"@, "-f"@, input],
        _ => seq!["install"@, "wine"@, input],
    }
}

/// Whether the action asks the user for a command first.
pub open spec fn needs_input(e: ConfigureEntry) -> bool {
    e is CustomWinetricks || e is CustomWine
}

/// The step behind a configure action. `input` is what the user typed, `None`
/// where the input dialog was cancelled.
pub fn configure_entry(e: ConfigureEntry, input: Option<String>) -> (r: Step)
    ensures
        e is Environment ==> r == Step::Show(Msg::DrawWineEnvironment),
        needs_input(e) && input is None ==> r == Step::Stay,
        !(e is Environment) && (!needs_input(e) || input is Some) ==> (r matches Step::Run(t)
            && t.next is None && commands_view(t.commands@) == seq![
            configure_args_spec(e, if input is Some { input.unwrap()@ } else { Seq::empty() }),
        ]),
{
    let ghost typed = if input is Some { input.unwrap()@ } else { Seq::<char>::empty() };
    let parts: Vec<&str> = match e {
        ConfigureEntry::Environment => {
            return Step::Show(Msg::DrawWineEnvironment);
        },
        ConfigureEntry::Dxvk => vec!["install", "winetricks", "-f", "dxvk"],
        ConfigureEntry::Vkd3d => vec!["install", "winetricks", "-f", "vkd3d"],
        ConfigureEntry::Regedit => vec!["install", "wine", "regedit"],
        ConfigureEntry::Uninstaller => vec!["install", "wine", "uninstaller"],
        ConfigureEntry::WinetricksGui => vec!["install", "winetricks", "--gui"],
        ConfigureEntry::CustomWinetricks => vec!["install", "winetricks", "-f"],
        ConfigureEntry::CustomWine => vec!["install", "wine"],
    };
    let args = if e == ConfigureEntry::CustomWinetricks || e == ConfigureEntry::CustomWine {
        match input {
            Some(cmd) => strings_then(&parts, cmd),
            None => {
                return Step::Stay;
            },
        }
    } else {
        strings(&parts)
    };
    assert(args_view(args) =~= configure_args_spec(e, typed));
    let commands = vec![args];
    assert(commands_view(commands@) =~= seq![configure_args_spec(e, typed)]);
    Step::Run(Task { commands, next: None, keep_going: false })
}

/// Arguments that install library `lib` with winetricks.
pub open spec fn install_args_spec(lib: Seq<char>) -> Seq<Seq<char>> {
    seq!["install"@, "winetricks"@, "-f"@, "-q"@, lib]
}

/// The task behind "install" on the library screen: one winetricks run per
/// checked library, in order, since winetricks stops at the first verb that
/// fails; a library that fails does not stop the others. The window stays on
/// the library screen.
pub fn install_task(libs: &Vec<String>) -> (r: Task)
    ensures
        r.next is None,
        r.keep_going,
        commands_view(r.commands@) == libs@.map_values(|l: String| install_args_spec(l@)),
{
    let mut commands: Vec<Vec<String>> = Vec::new();
    let mut i: usize = 0;
    while i < libs.len()
        invariant
            i <= libs.len(),
            commands_view(commands@) == libs@.take(i as int).map_values(
                |l: String| install_args_spec(l@),
            ),
        decreases libs.len() - i,
    {
        let parts = vec!["install", "winetricks", "-f", "-q"];
        let args = strings_then(&parts, libs[i].clone());
        assert(parts@.map_values(|s: &str| s@) =~= seq!["install"@, "winetricks"@, "-f"@, "-q"@]);
        assert(args_view(args) =~= install_args_spec(libs@[i as int]@));
        let ghost before = commands@;
        commands.push(args);
        proof {
            assert(libs@.take(i as int + 1) =~= libs@.take(i as int).push(libs@[i as int]));
            assert(commands_view(commands@) =~= commands_view(before).push(args_view(args)));
            assert(commands_view(commands@) =~= libs@.take(i as int + 1).map_values(
                |l: String| install_args_spec(l@),
            ));
        }
        i = i + 1;
    }
    assert(libs@.take(i as int) =~= libs@);
    Task { commands, next: None, keep_going: true }
}

/// Release years offered on the library screen, oldest first.
pub fn year_choices() -> (r: Vec<u32>)
    ensures
        r@.len() == 32,
        forall|i: int| 0 <= i < 32 ==> r@[i] == 1993 + i,
{
    let mut r: Vec<u32> = Vec::new();
    let mut y: u32 = 1993;
    while y < 2025
        invariant
            1993 <= y <= 2025,
            r@.len() == y - 1993,
            forall|i: int| 0 <= i < r@.len() ==> r@[i] == 1993 + i,
        decreases 2025 - y,
    {
        r.push(y);
        y = y + 1;
    }
    r
}

/// The task behind "add" on the executables screen: install the chosen file
/// with Wine, then show the refreshed list.
pub fn rom_add_task(file: String) -> (r: Task)
    ensures
        r.next == Some(Msg::DrawWineRom),
        commands_view(r.commands@) == seq![seq!["install"@, "wine"@, file@]],
{
    let ghost f = file@;
    let parts = vec!["install", "wine"];
    let args = strings_then(&parts, file);
    assert(parts@.map_values(|s: &str| s@) =~= seq!["install"@, "wine"@]);
    assert(args_view(args) =~= seq!["install"@, "wine"@, f]);
    let commands = vec![args];
    assert(commands_view(commands@) =~= seq![seq!["install"@, "wine"@, f]]);
    Task { commands, next: Some(Msg::DrawWineRom), keep_going: false }
}

/// The task behind "run" on an executable: make it the default, then, only if
/// that succeeded, test it.
pub fn rom_run_task(item: String) -> (r: Task)
    ensures
        r.next is None,
        !r.keep_going,
        commands_view(r.commands@) == seq![seq!["select"@, "rom"@, item@], seq!["test"@]],
{
    let ghost v = item@;
    let parts = vec!["select", "rom"];
    let select = strings_then(&parts, item);
    assert(parts@.map_values(|s: &str| s@) =~= seq!["select"@, "rom"@]);
    assert(args_view(select) =~= seq!["select"@, "rom"@, v]);
    let parts_test = vec!["test"];
    let test = strings(&parts_test);
    assert(args_view(test) =~= seq!["test"@]);
    let commands = vec![select, test];
    assert(commands_view(commands@) =~= seq![seq!["select"@, "rom"@, v], seq!["test"@]]);
    Task { commands, next: None, keep_going: false }
}

/// Why "next" on the executables screen is refused.
#[derive(Clone, Copy, Debug, PartialEq, Eq, Structural)]
pub enum RomError {
    /// No executable was marked as the default.
    NoDefault,
}

/// "Next" on the executables screen: the executable marked as the default
/// becomes the default of the package, then the compress screen is shown.
pub fn rom_next(selected: Option<String>) -> (r: Result<Task, RomError>)
    ensures
        selected is None <==> r == Err::<Task, RomError>(RomError::NoDefault),
        selected is Some ==> (r matches Ok(t) && t.next == Some(Msg::DrawWineCompress)
            && commands_view(t.commands@) == seq![
            seq!["select"@, "rom"@, selected.unwrap()@],
        ]),
{
    match selected {
        None => Err(RomError::NoDefault),
        Some(item) => {
            let ghost v = item@;
            let parts = vec!["select", "rom"];
            let args = strings_then(&parts, item);
            assert(parts@.map_values(|s: &str| s@) =~= seq!["select"@, "rom"@]);
            assert(args_view(args) =~= seq!["select"@, "rom"@, v]);
            let commands = vec![args];
            assert(commands_view(commands@) =~= seq![seq!["select"@, "rom"@, v]]);
            Ok(Task { commands, next: Some(Msg::DrawWineCompress), keep_going: false })
        },
    }
}

impl RomError {
    /// Text of the alert for this error.
    pub fn describe(&self) -> (r: &'static str)
        ensures
            r == "You must selected the default executable before continuing",
    {
        "You must selected the default executable before continuing"
    }
}

/// Marks exactly the executable at `chosen` as the default among `n` of them.
pub fn toggle_exclusive(n: usize, chosen: usize) -> (r: Vec<bool>)
    ensures
        r@.len() == n,
        forall|i: int| 0 <= i < n ==> r@[i] == (i == chosen),
{
    let mut r: Vec<bool> = Vec::new();
    let mut i: usize = 0;
    while i < n
        invariant
            i <= n,
            r@.len() == i,
            forall|j: int| 0 <= j < i ==> r@[j] == (j == chosen),
        decreases n - i,
    {
        r.push(i == chosen);
        i = i + 1;
    }
    r
}

/// Adds an environment variable from the key/value dialog; an empty key is
/// ignored. Returns whether the mapping changed.
pub fn env_add(kv: &mut Kv, key: String, value: String) -> (r: bool)
    requires
        old(kv).wf(),
    ensures
        final(kv).wf(),
        r == (key@.len() > 0),
        r ==> final(kv).view() == old(kv).view().insert(key@, value@),
        !r ==> final(kv).view() == old(kv).view(),
{
    if key.as_str().unicode_len() == 0 {
        return false;
    }
    kv.write(key, value);
    true
}

/// Records whether executable `item` is selectable in the launcher.
pub fn set_selectable(kv: &mut Kv, item: String, on: bool)
    requires
        old(kv).wf(),
    ensures
        final(kv).wf(),
        on ==> final(kv).view() == old(kv).view().insert(item@, "1"@),
        !on ==> final(kv).view() == old(kv).view().remove(item@),
{
    if on {
        kv.write(item, String::from_str("1"));
    } else {
        kv.erase(item.as_str());
    }
}

/// Lowercase form of a string, as std's Unicode case mapping gives it.
pub uninterp spec fn lower_of(s: Seq<char>) -> Seq<char>;

/// Relies on str::to_lowercase: its result depends on the characters alone,
/// and the empty string stays empty.
#[verifier::external_body]
fn lowercase(s: &str) -> (r: String)
    ensures
        r@ == lower_of(s@),
        s@.len() == 0 ==> r@.len() == 0,
{
    s.to_lowercase()
}

/// Whether `needle` occurs in `hay` as a run of characters.
pub open spec fn contains_spec(hay: Seq<char>, needle: Seq<char>) -> bool {
    exists|i: int|
        0 <= i && i + needle.len() <= hay.len() && #[trigger] hay.subrange(i, i + needle.len())
            == needle
}

fn matches_at(hay: &str, needle: &str, n: usize, m: usize, i: usize) -> (r: bool)
    requires
        n == hay@.len(),
        m == needle@.len(),
        i + m <= n,
    ensures
        r == (hay@.subrange(i as int, i + m) == needle@),
{
    let mut j: usize = 0;
    while j < m
        invariant
            n == hay@.len(),
            m == needle@.len(),
            i + m <= n,
            j <= m,
            forall|k: int| 0 <= k < j ==> hay@[i + k] == needle@[k],
        decreases m - j,
    {
        if hay.get_char(i + j) != needle.get_char(j) {
            assert(hay@.subrange(i as int, i + m)[j as int] != needle@[j as int]);
            return false;
        }
        j = j + 1;
    }
    assert(hay@.subrange(i as int, i + m) =~= needle@);
    true
}

/// Whether `needle` occurs in `hay`. With both already lowercased, this is the
/// filter of the executables screen.
pub fn contains(hay: &str, needle: &str) -> (r: bool)
    ensures
        r == contains_spec(hay@, needle@),
{
    let n = hay.unicode_len();
    let m = needle.unicode_len();
    if m > n {
        return false;
    }
    if m == 0 {
        assert(hay@.subrange(0int, 0int + needle@.len()) =~= needle@);
        return true;
    }
    let mut i: usize = 0;
    while i <= n - m
        invariant
            n == hay@.len(),
            m == needle@.len(),
            0 < m <= n,
            i <= n - m + 1,
            forall|k: int| 0 <= k < i ==> #[trigger] hay@.subrange(k, k + m) != needle@,
        decreases n - m + 1 - i,
    {
        if matches_at(hay, needle, n, m, i) {
            return true;
        }
        i = i + 1;
    }
    false
}

/// The paths, in order, whose lowercase form holds the lowercase query.
pub open spec fn filter_spec(paths: Seq<String>, query: Seq<char>) -> Seq<Seq<char>>
    decreases paths.len(),
{
    if paths.len() == 0 {
        Seq::empty()
    } else {
        let rest = filter_spec(paths.drop_last(), query);
        if contains_spec(lower_of(paths.last()@), lower_of(query)) {
            rest.push(paths.last()@)
        } else {
            rest
        }
    }
}

/// The installed executables that the search query selects, ignoring case.
/// An empty query selects all of them.
pub fn filter_roms(paths: &Vec<String>, query: &str) -> (r: Vec<String>)
    ensures
        r@.map_values(|s: String| s@) == filter_spec(paths@, query@),
        query@.len() == 0 ==> r@.map_values(|s: String| s@) == paths@.map_values(
            |s: String| s@,
        ),
{
    let q = lowercase(query);
    let mut r: Vec<String> = Vec::new();
    let mut i: usize = 0;
    while i < paths.len()
        invariant
            i <= paths.len(),
            q@ == lower_of(query@),
            r@.map_values(|s: String| s@) == filter_spec(paths@.take(i as int), query@),
            query@.len() == 0 ==> q@.len() == 0,
            query@.len() == 0 ==> r@.map_values(|s: String| s@) == paths@.take(
                i as int,
            ).map_values(|s: String| s@),
        decreases paths.len() - i,
    {
        let p = lowercase(paths[i].as_str());
        let ghost before = r@;
        proof {
            assert(paths@.take(i as int + 1).drop_last() =~= paths@.take(i as int));
        }
        let found = contains(p.as_str(), q.as_str());
        proof {
            if q@.len() == 0 {
                assert(p@.subrange(0int, 0int + q@.len()) =~= q@);
            }
        }
        if found {
            r.push(paths[i].clone());
            assert(r@.map_values(|s: String| s@) =~= before.map_values(|s: String| s@).push(
                paths@[i as int]@,
            ));
        }
        proof {
            assert(paths@.take(i as int + 1).map_values(|s: String| s@) =~= paths@.take(
                i as int,
            ).map_values(|s: String| s@).push(paths@[i as int]@));
        }
        i = i + 1;
    }
    assert(paths@.take(i as int) =~= paths@);
    r
}

/// Whether std counts `c` as whitespace: the Unicode White_Space property.
pub open spec fn is_white_space_spec(c: char) -> bool {
    ||| '\u{9}' <= c <= '\u{d}'
    ||| c == ' ' || c == '\u{85}' || c == '\u{a0}' || c == '\u{1680}'
    ||| '\u{2000}' <= c <= '\u{200a}'
    ||| c == '\u{2028}' || c == '\u{2029}' || c == '\u{202f}' || c == '\u{205f}'
    ||| c == '\u{3000}'
}

pub fn is_white_space(c: char) -> (r: bool)
    ensures
        r == is_white_space_spec(c),
{
    ('\u{9}' <= c && c <= '\u{d}') || c == ' ' || c == '\u{85}' || c == '\u{a0}' || c
        == '\u{1680}' || ('\u{2000}' <= c && c <= '\u{200a}') || c == '\u{2028}' || c
        == '\u{2029}' || c == '\u{202f}' || c == '\u{205f}' || c == '\u{3000}'
}

/// Whether `s` is empty once surrounding whitespace is trimmed.
pub open spec fn is_blank_spec(s: Seq<char>) -> bool {
    forall|i: int| 0 <= i < s.len() ==> is_white_space_spec(#[trigger] s[i])
}

pub fn is_blank(s: &str) -> (r: bool)
    ensures
        r == is_blank_spec(s@),
{
    let n = s.unicode_len();
    let mut i: usize = 0;
    while i < n
        invariant
            n == s@.len(),
            i <= n,
            forall|k: int| 0 <= k < i ==> is_white_space_spec(#[trigger] s@[k]),
        decreases n - i,
    {
        if !is_white_space(s.get_char(i)) {
            return false;
        }
        i = i + 1;
    }
    true
}

/// Records the arguments typed for executable `item`: blank arguments remove
/// its entry.
pub fn set_arguments(kv: &mut Kv, item: String, value: String)
    requires
        old(kv).wf(),
    ensures
        final(kv).wf(),
        is_blank_spec(value@) ==> final(kv).view() == old(kv).view().remove(item@),
        !is_blank_spec(value@) ==> final(kv).view() == old(kv).view().insert(item@, value@),
{
    if is_blank(value.as_str()) {
        kv.erase(item.as_str());
    } else {
        kv.write(item, value);
    }
}

} // verus!
