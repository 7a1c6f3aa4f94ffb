use vstd::prelude::*;
use vstd::string::*;
use crate::text_util::{decimal, decimal_string, rows_view};

verus! {

/// An application that the launcher can start.
#[derive(Debug, Clone)]
pub struct AppEntry {
    /// The name shown in the menu; the menu shows each name once.
    pub name: String,
    /// The program to run.
    pub command: String,
    /// The arguments handed to the program, if any.
    pub args: Option<Vec<String>>,
}

/// Settings of the interface.
#[derive(Debug, Clone)]
pub struct UiConfig {
    /// Frames drawn in a second.
    pub target_fps: u32,
    /// The program that text files are opened with.
    pub text_editor: String,
    /// The directory that new text files are made in.
    pub default_text_dir: String,
}

/// The colours of the interface, each as red, green and blue.
#[derive(Debug, Clone)]
pub struct ThemeConfig {
    pub text_primary: [u8; 3],
    pub text_secondary: [u8; 3],
    pub text_selected: [u8; 3],
    pub text_accent: [u8; 3],
    pub star_dim: [u8; 3],
    pub star_medium: [u8; 3],
    pub star_light: [u8; 3],
    pub star_bright: [u8; 3],
    pub star_brightest: [u8; 3],
    pub status_good: [u8; 3],
    pub status_warning: [u8; 3],
    pub status_error: [u8; 3],
    pub status_info: [u8; 3],
    pub border: [u8; 3],
}

/// The colour with the given parts.
pub open spec fn rgb(r: u8, g: u8, b: u8) -> Seq<u8> {
    seq![r, g, b]
}

/// Day and night shading is off unless the settings turn it on.
pub fn default_lighting() -> (on: bool)
    ensures
        !on,
{
    false
}

/// Sixty frames a second.
pub fn default_fps() -> (fps: u32)
    ensures
        fps == 60,
{
    60
}

/// The editor that new text files are opened with.
pub fn default_text_editor() -> (editor: String)
    ensures
        editor@ == "code"@,
{
    "code".to_owned()
}

/// The directory that the globe's textures are looked for in.
pub fn default_texture_path() -> (path: String)
    ensures
        path@ == "textures"@,
{
    "textures".to_owned()
}

/// Ordinary text is white.
pub fn default_text_primary() -> (c: [u8; 3])
    ensures
        c@ == rgb(255, 255, 255),
{
    let c: [u8; 3] = [255, 255, 255];
    assert(c@ =~= rgb(255, 255, 255));
    c
}

/// Less important text is light grey.
pub fn default_text_secondary() -> (c: [u8; 3])
    ensures
        c@ == rgb(200, 200, 200),
{
    let c: [u8; 3] = [200, 200, 200];
    assert(c@ =~= rgb(200, 200, 200));
    c
}

/// The selected item is white.
pub fn default_text_selected() -> (c: [u8; 3])
    ensures
        c@ == rgb(255, 255, 255),
{
    let c: [u8; 3] = [255, 255, 255];
    assert(c@ =~= rgb(255, 255, 255));
    c
}

/// Highlighted text is light blue.
pub fn default_text_accent() -> (c: [u8; 3])
    ensures
        c@ == rgb(100, 150, 255),
{
    let c: [u8; 3] = [100, 150, 255];
    assert(c@ =~= rgb(100, 150, 255));
    c
}

/// The dimmest stars are a bluish dark grey.
pub fn default_star_dim() -> (c: [u8; 3])
    ensures
        c@ == rgb(100, 100, 120),
{
    let c: [u8; 3] = [100, 100, 120];
    assert(c@ =~= rgb(100, 100, 120));
    c
}

/// Stars of medium brightness are a bluish grey.
pub fn default_star_medium() -> (c: [u8; 3])
    ensures
        c@ == rgb(150, 150, 180),
{
    let c: [u8; 3] = [150, 150, 180];
    assert(c@ =~= rgb(150, 150, 180));
    c
}

/// Light stars are a bluish light grey.
pub fn default_star_light() -> (c: [u8; 3])
    ensures
        c@ == rgb(200, 200, 220),
{
    let c: [u8; 3] = [200, 200, 220];
    assert(c@ =~= rgb(200, 200, 220));
    c
}

/// Bright stars are almost white.
pub fn default_star_bright() -> (c: [u8; 3])
    ensures
        c@ == rgb(230, 230, 250),
{
    let c: [u8; 3] = [230, 230, 250];
    assert(c@ =~= rgb(230, 230, 250));
    c
}

/// The brightest stars are white.
pub fn default_star_brightest() -> (c: [u8; 3])
    ensures
        c@ == rgb(255, 255, 255),
{
    let c: [u8; 3] = [255, 255, 255];
    assert(c@ =~= rgb(255, 255, 255));
    c
}

/// A value that is in order is green.
pub fn default_status_good() -> (c: [u8; 3])
    ensures
        c@ == rgb(0, 255, 0),
{
    let c: [u8; 3] = [0, 255, 0];
    assert(c@ =~= rgb(0, 255, 0));
    c
}

/// A value that calls for attention is yellow.
pub fn default_status_warning() -> (c: [u8; 3])
    ensures
        c@ == rgb(255, 255, 0),
{
    let c: [u8; 3] = [255, 255, 0];
    assert(c@ =~= rgb(255, 255, 0));
    c
}

/// A value that is out of order is red.
pub fn default_status_error() -> (c: [u8; 3])
    ensures
        c@ == rgb(255, 0, 0),
{
    let c: [u8; 3] = [255, 0, 0];
    assert(c@ =~= rgb(255, 0, 0));
    c
}

/// A value that only informs is cyan.
pub fn default_status_info() -> (c: [u8; 3])
    ensures
        c@ == rgb(0, 255, 255),
{
    let c: [u8; 3] = [0, 255, 255];
    assert(c@ =~= rgb(0, 255, 255));
    c
}

/// Borders are white.
pub fn default_border() -> (c: [u8; 3])
    ensures
        c@ == rgb(255, 255, 255),
{
    let c: [u8; 3] = [255, 255, 255];
    assert(c@ =~= rgb(255, 255, 255));
    c
}

/// The colours of the built-in theme.
pub open spec fn is_default_theme(theme: ThemeConfig) -> bool {
    &&& theme.text_primary@ == rgb(255, 255, 255)
    &&& theme.text_secondary@ == rgb(200, 200, 200)
    &&& theme.text_selected@ == rgb(255, 255, 255)
    &&& theme.text_accent@ == rgb(100, 150, 255)
    &&& theme.star_dim@ == rgb(100, 100, 120)
    &&& theme.star_medium@ == rgb(150, 150, 180)
    &&& theme.star_light@ == rgb(200, 200, 220)
    &&& theme.star_bright@ == rgb(230, 230, 250)
    &&& theme.star_brightest@ == rgb(255, 255, 255)
    &&& theme.status_good@ == rgb(0, 255, 0)
    &&& theme.status_warning@ == rgb(255, 255, 0)
    &&& theme.status_error@ == rgb(255, 0, 0)
    &&& theme.status_info@ == rgb(0, 255, 255)
    &&& theme.border@ == rgb(255, 255, 255)
}

/// The built-in theme.
pub fn default_theme() -> (theme: ThemeConfig)
    ensures
        is_default_theme(theme),
{
    ThemeConfig {
        text_primary: default_text_primary(),
        text_secondary: default_text_secondary(),
        text_selected: default_text_selected(),
        text_accent: default_text_accent(),
        star_dim: default_star_dim(),
        star_medium: default_star_medium(),
        star_light: default_star_light(),
        star_bright: default_star_bright(),
        star_brightest: default_star_brightest(),
        status_good: default_status_good(),
        status_warning: default_status_warning(),
        status_error: default_status_error(),
        status_info: default_status_info(),
        border: default_border(),
    }
}

/// The name of the placeholder application with number `n`.
pub open spec fn app_label(n: nat) -> Seq<char> {
    if n == 6 {
        "Application 6"@
    } else {
        "App "@ + decimal(n)
    }
}

/// An entry with the given name, command and arguments.
pub open spec fn is_app(
    app: AppEntry,
    name: Seq<char>,
    command: Seq<char>,
    args: Option<Seq<Seq<char>>>,
) -> bool {
    &&& app.name@ == name
    &&& app.command@ == command
    &&& match args {
        Some(list) => app.args matches Some(a) && rows_view(a@) == list,
        None => app.args is None,
    }
}

/// The placeholder application with number `n`: it echoes its own name.
pub open spec fn is_placeholder_app(app: AppEntry, n: nat) -> bool {
    is_app(app, app_label(n), "echo"@, Some(seq![app_label(n)]))
}

/// Whether an entry of `apps` has the name `name`.
pub open spec fn has_name(apps: Seq<AppEntry>, name: Seq<char>) -> bool {
    exists|j: int| 0 <= j < apps.len() && (#[trigger] apps[j]).name@ == name
}

/// The first `k` entries of `apps` without those whose name an earlier
/// entry has: of entries with one name the first stays, in its place.
pub open spec fn deduped(apps: Seq<AppEntry>, k: nat) -> Seq<AppEntry>
    decreases k,
{
    if k == 0 {
        Seq::empty()
    } else {
        let before = deduped(apps, (k - 1) as nat);
        if has_name(apps.subrange(0, k - 1), apps[k - 1].name@) {
            before
        } else {
            before.push(apps[k - 1])
        }
    }
}

/// The names that stay are the names that were there: an entry of the
/// first `k` has a name exactly if an entry that stays has it.
pub proof fn lemma_deduped_names(apps: Seq<AppEntry>, k: nat, name: Seq<char>)
    requires
        k <= apps.len(),
    ensures
        has_name(deduped(apps, k), name) <==> has_name(apps.subrange(0, k as int), name),
        deduped(apps, k).len() <= k,
    decreases k,
{
    if k > 0 {
        let before = deduped(apps, (k - 1) as nat);
        let head = apps.subrange(0, k - 1);
        let upto = apps.subrange(0, k as int);
        let last = apps[k - 1];
        lemma_deduped_names(apps, (k - 1) as nat, name);
        lemma_deduped_names(apps, (k - 1) as nat, last.name@);
        let after = deduped(apps, k);
        if has_name(after, name) {
            let j = choose|j: int| 0 <= j < after.len() && (#[trigger] after[j]).name@ == name;
            if j < before.len() {
                assert(before[j] == after[j]);
                assert(has_name(before, name));
                let i = choose|i: int| 0 <= i < head.len() && (#[trigger] head[i]).name@ == name;
                assert(upto[i] == head[i]);
            } else {
                assert(after[j] == last);
                assert(upto[k - 1] == last);
            }
            assert(has_name(upto, name));
        }
        if has_name(upto, name) {
            let i = choose|i: int| 0 <= i < upto.len() && (#[trigger] upto[i]).name@ == name;
            if i < k - 1 {
                assert(head[i] == upto[i]);
                assert(has_name(head, name));
                let j = choose|j: int|
                    0 <= j < before.len() && (#[trigger] before[j]).name@ == name;
                assert(after[j] == before[j]);
            } else {
                assert(upto[i] == last);
                if has_name(head, last.name@) {
                    let j = choose|j: int|
                        0 <= j < before.len() && (#[trigger] before[j]).name@ == last.name@;
                    assert(after[j] == before[j]);
                } else {
                    assert(after[after.len() - 1] == last);
                }
            }
            assert(has_name(after, name));
        }
    }
}

/// No two entries that stay have one name.
pub proof fn lemma_deduped_distinct(apps: Seq<AppEntry>, k: nat)
    requires
        k <= apps.len(),
    ensures
        forall|i: int, j: int|
            0 <= i < j < deduped(apps, k).len() ==> (#[trigger] deduped(apps, k)[i]).name@ != (
            #[trigger] deduped(apps, k)[j]).name@,
    decreases k,
{
    if k > 0 {
        let before = deduped(apps, (k - 1) as nat);
        let last = apps[k - 1];
        let after = deduped(apps, k);
        lemma_deduped_distinct(apps, (k - 1) as nat);
        lemma_deduped_names(apps, (k - 1) as nat, last.name@);
        assert forall|i: int, j: int| 0 <= i < j < after.len() implies (#[trigger] after[i]).name@
            != (#[trigger] after[j]).name@ by {
            if j < before.len() {
                assert(after[i] == before[i] && after[j] == before[j]);
            } else {
                assert(after[i] == before[i]);
                assert(after[j] == last);
                if before[i].name@ == last.name@ {
                    assert(has_name(before, last.name@));
                }
            }
        }
    }
}

/// The placeholder application with number `n`.
fn placeholder_app(n: u64) -> (app: AppEntry)
    ensures
        is_placeholder_app(app, n as nat),
{
    let mut name = String::new();
    if n == 6 {
        name.append("Application 6");
    } else {
        name.append("App ");
        name.append(decimal_string(n).as_str());
    }
    assert(name@ =~= app_label(n as nat));
    let mut args: Vec<String> = Vec::new();
    args.push(name.clone());
    assert(rows_view(args@) =~= seq![app_label(n as nat)]);
    AppEntry { name, command: "echo".to_owned(), args: Some(args) }
}

/// Adds the placeholder applications with the numbers from `from` to 18.
fn push_placeholder_apps(apps: &mut Vec<AppEntry>, from: u64)
    requires
        from <= 19,
    ensures
        final(apps)@.len() == old(apps)@.len() + (19 - from),
        forall|i: int| 0 <= i < old(apps)@.len() ==> final(apps)@[i] == old(apps)@[i],
        forall|i: int|
            old(apps)@.len() <= i < final(apps)@.len() ==> is_placeholder_app(
                #[trigger] final(apps)@[i],
                (i - old(apps)@.len() + from) as nat,
            ),
{
    let ghost base = apps@.len();
    let mut n: u64 = from;
    while n < 19
        invariant
            from <= n <= 19,
            base == old(apps)@.len(),
            apps@.len() == base + (n - from),
            forall|i: int| 0 <= i < base ==> apps@[i] == old(apps)@[i],
            forall|i: int|
                base <= i < apps@.len() ==> is_placeholder_app(
                    #[trigger] apps@[i],
                    (i - base + from) as nat,
                ),
        decreases 19 - n,
    {
        apps.push(placeholder_app(n));
        n += 1;
    }
}

/// The placeholder applications: those with the numbers 4 to 18.
pub fn placeholder_apps() -> (apps: Vec<AppEntry>)
    ensures
        apps@.len() == 15,
        forall|i: int| 0 <= i < 15 ==> is_placeholder_app(#[trigger] apps@[i], (i + 4) as nat),
{
    let mut apps: Vec<AppEntry> = Vec::new();
    push_placeholder_apps(&mut apps, 4);
    apps
}

/// The applications of a fresh configuration: a terminal, an editor and a
/// file manager, then the placeholder applications.
pub fn default_apps() -> (apps: Vec<AppEntry>)
    ensures
        apps@.len() == 18,
        is_app(apps@[0], "Terminal"@, "open"@, Some(seq!["-a"@, "Terminal.app"@])),
        is_app(apps@[1], "VS Code"@, "code"@, None),
        is_app(apps@[2], "Finder"@, "open"@, Some(seq!["-a"@, "Finder.app"@])),
        forall|i: int| 3 <= i < 18 ==> is_placeholder_app(#[trigger] apps@[i], (i + 1) as nat),
{
    let mut apps: Vec<AppEntry> = Vec::new();
    let terminal_args: Vec<String> = vec!["-a".to_owned(), "Terminal.app".to_owned()];
    assert(rows_view(terminal_args@) =~= seq!["-a"@, "Terminal.app"@]);
    apps.push(
        AppEntry {
            name: "Terminal".to_owned(),
            command: "open".to_owned(),
            args: Some(terminal_args),
        },
    );
    apps.push(AppEntry { name: "VS Code".to_owned(), command: "code".to_owned(), args: None });
    let finder_args: Vec<String> = vec!["-a".to_owned(), "Finder.app".to_owned()];
    assert(rows_view(finder_args@) =~= seq!["-a"@, "Finder.app"@]);
    apps.push(
        AppEntry {
            name: "Finder".to_owned(),
            command: "open".to_owned(),
            args: Some(finder_args),
        },
    );
    push_placeholder_apps(&mut apps, 4);
    apps
}

/// Whether one of the first `upto` entries has the name `name`.
fn name_among(apps: &Vec<AppEntry>, upto: usize, name: &String) -> (found: bool)
    requires
        upto <= apps@.len(),
    ensures
        found == has_name(apps@.subrange(0, upto as int), name@),
{
    let ghost head = apps@.subrange(0, upto as int);
    let mut j: usize = 0;
    while j < upto
        invariant
            j <= upto <= apps@.len(),
            head == apps@.subrange(0, upto as int),
            forall|i: int| 0 <= i < j ==> (#[trigger] head[i]).name@ != name@,
        decreases upto - j,
    {
        if apps[j].name == *name {
            assert(head[j as int] == apps@[j as int]);
            return true;
        }
        assert(head[j as int] == apps@[j as int]);
        j += 1;
    }
    false
}

/// Removes every entry whose name an earlier entry has.
pub fn dedup_apps(apps: &mut Vec<AppEntry>)
    ensures
        final(apps)@ == deduped(old(apps)@, old(apps)@.len()),
{
    let ghost orig = apps@;
    let n: usize = apps.len();
    let mut i: usize = 0;
    let mut k: usize = 0;
    assert(apps@ =~= deduped(orig, 0) + orig.subrange(0, n as int));
    while k < n
        invariant
            i <= k <= n,
            n == orig.len(),
            i == deduped(orig, k as nat).len(),
            apps@ == deduped(orig, k as nat) + orig.subrange(k as int, n as int),
        decreases n - k,
    {
        let ghost kept = deduped(orig, k as nat);
        let ghost rest = orig.subrange(k as int, n as int);
        assert(apps@[i as int] == rest[0]);
        assert(apps@.subrange(0, i as int) =~= kept);
        let name = apps[i].name.clone();
        let seen = name_among(apps, i, &name);
        proof {
            lemma_deduped_names(orig, k as nat, orig[k as int].name@);
        }
        if seen {
            apps.remove(i);
            assert(apps@ =~= kept + orig.subrange(k + 1, n as int));
        } else {
            assert(apps@ =~= kept.push(orig[k as int]) + orig.subrange(k + 1, n as int));
            i += 1;
        }
        k += 1;
    }
    assert(apps@ =~= deduped(orig, n as nat));
}

/// The applications of a configuration that was read from its file: the
/// placeholder applications are added behind those of the file, then every
/// entry whose name an earlier entry has is removed.
pub fn finish_loaded_apps(apps: &mut Vec<AppEntry>)
    ensures
        exists|extra: Seq<AppEntry>|
            {
                &&& extra.len() == 15
                &&& forall|i: int|
                    0 <= i < 15 ==> is_placeholder_app(#[trigger] extra[i], (i + 4) as nat)
                &&& final(apps)@ == deduped(old(apps)@ + extra, old(apps)@.len() + 15)
            },
{
    let ghost before = apps@;
    push_placeholder_apps(apps, 4);
    let ghost extra = apps@.subrange(before.len() as int, apps@.len() as int);
    assert(apps@ =~= before + extra);
    assert forall|i: int| 0 <= i < 15 implies is_placeholder_app(
        #[trigger] extra[i],
        (i + 4) as nat,
    ) by {
        assert(extra[i] == apps@[before.len() + i]);
    }
    dedup_apps(apps);
}

/// The directory that the textures are read from: the configured one if
/// it exists, else the bundled directory `textures` if that exists, else
/// the configured one all the same.
pub fn find_texture_path(config_path: &str, configured_exists: bool, bundled_exists: bool) -> (path:
    String)
    ensures
        path@ == if configured_exists || !bundled_exists {
            config_path@
        } else {
            "textures"@
        },
{
    if configured_exists {
        return config_path.to_owned();
    }
    if bundled_exists {
        return "textures".to_owned();
    }
    config_path.to_owned()
}

} // verus!
