//! The settings that outlive the program. No secret is among them: those are
//! kept in the system keyring.

use vstd::prelude::*;
use vstd::string::*;

use crate::text::{opt_text, same_text, texts};
use crate::ui::theme::{Accent, Theme};

verus! {

/// A track choice, global or remembered. `Default` (audio) leaves the choice
/// to the player's default track; `Off` (subtitles) shows none.
#[derive(Debug, PartialEq, Eq)]
pub enum TrackPreference {
    Default,
    Off,
    /// A language by its ISO 639-2/B code.
    Language(String),
}

/// A track choice as values.
#[verifier::ext_equal]
pub enum TrackModel {
    Default,
    Off,
    Language(Seq<char>),
}

impl View for TrackPreference {
    type V = TrackModel;

    open spec fn view(&self) -> TrackModel {
        match self {
            TrackPreference::Default => TrackModel::Default,
            TrackPreference::Off => TrackModel::Off,
            TrackPreference::Language(code) => TrackModel::Language(code@),
        }
    }
}

impl Clone for TrackPreference {
    fn clone(&self) -> (copy: Self)
        ensures
            copy == *self,
    {
        match self {
            TrackPreference::Default => TrackPreference::Default,
            TrackPreference::Off => TrackPreference::Off,
            TrackPreference::Language(code) => TrackPreference::Language(code.clone()),
        }
    }
}

/// An optional track choice as values.
pub open spec fn opt_track(preference: Option<TrackPreference>) -> Option<TrackModel> {
    match preference {
        Some(p) => Some(p@),
        None => None,
    }
}

/// Non-secret Jellyfin settings.
#[derive(Debug)]
pub struct JellyfinConfig {
    pub host: String,
    pub username: String,
    pub device: String,
    pub device_id: String,
    pub user_id: String,
    pub skip_segments: Vec<String>,
    pub audio_language: Option<TrackPreference>,
    pub subtitle_language: Option<TrackPreference>,
}

/// Non-secret Sonarr settings.
#[derive(Debug)]
pub struct SonarrConfig {
    pub host: String,
}

/// Non-secret Radarr settings.
#[derive(Debug)]
pub struct RadarrConfig {
    pub host: String,
}

/// Everything that is kept in the settings file.
#[derive(Debug)]
pub struct Config {
    pub last_app: Option<String>,
    pub theme: Theme,
    /// Only applied by themes that offer accents; kept regardless, so that
    /// switching back to such a theme restores the choice.
    pub accent: Accent,
    pub jellyfin: JellyfinConfig,
    pub sonarr: SonarrConfig,
    pub radarr: RadarrConfig,
}

/// The Jellyfin settings as values.
#[verifier::ext_equal]
pub struct JellyfinModel {
    pub host: Seq<char>,
    pub username: Seq<char>,
    pub device: Seq<char>,
    pub device_id: Seq<char>,
    pub user_id: Seq<char>,
    pub skip_segments: Seq<Seq<char>>,
    pub audio_language: Option<TrackModel>,
    pub subtitle_language: Option<TrackModel>,
}

/// The settings as values.
#[verifier::ext_equal]
pub struct ConfigModel {
    pub last_app: Option<Seq<char>>,
    pub theme: Theme,
    pub accent: Accent,
    pub jellyfin: JellyfinModel,
    pub sonarr_host: Seq<char>,
    pub radarr_host: Seq<char>,
}

impl View for JellyfinConfig {
    type V = JellyfinModel;

    open spec fn view(&self) -> JellyfinModel {
        JellyfinModel {
            host: self.host@,
            username: self.username@,
            device: self.device@,
            device_id: self.device_id@,
            user_id: self.user_id@,
            skip_segments: texts(self.skip_segments@),
            audio_language: opt_track(self.audio_language),
            subtitle_language: opt_track(self.subtitle_language),
        }
    }
}

impl View for Config {
    type V = ConfigModel;

    open spec fn view(&self) -> ConfigModel {
        ConfigModel {
            last_app: opt_text(self.last_app),
            theme: self.theme,
            accent: self.accent,
            jellyfin: self.jellyfin@,
            sonarr_host: self.sonarr.host@,
            radarr_host: self.radarr.host@,
        }
    }
}

impl JellyfinModel {
    pub open spec fn blank() -> JellyfinModel {
        JellyfinModel {
            host: Seq::empty(),
            username: Seq::empty(),
            device: Seq::empty(),
            device_id: Seq::empty(),
            user_id: Seq::empty(),
            skip_segments: Seq::empty(),
            audio_language: None,
            subtitle_language: None,
        }
    }

    /// The settings with the device's identity filled in where it is missing.
    pub open spec fn identified(self, device: Seq<char>, device_id: Seq<char>) -> JellyfinModel {
        JellyfinModel {
            device: if self.device.len() == 0 {
                device
            } else {
                self.device
            },
            device_id: if self.device_id.len() == 0 {
                device_id
            } else {
                self.device_id
            },
            ..self
        }
    }
}

impl Default for JellyfinConfig {
    fn default() -> (config: JellyfinConfig)
        ensures
            config@ == JellyfinModel::blank(),
    {
        let config = JellyfinConfig {
            host: String::new(),
            username: String::new(),
            device: String::new(),
            device_id: String::new(),
            user_id: String::new(),
            skip_segments: Vec::new(),
            audio_language: None,
            subtitle_language: None,
        };
        assert(config@ =~= JellyfinModel::blank());
        config
    }
}

impl Default for SonarrConfig {
    fn default() -> (config: SonarrConfig)
        ensures
            config.host@.len() == 0,
    {
        SonarrConfig { host: String::new() }
    }
}

impl Default for RadarrConfig {
    fn default() -> (config: RadarrConfig)
        ensures
            config.host@.len() == 0,
    {
        RadarrConfig { host: String::new() }
    }
}

impl ConfigModel {
    /// The settings before anything is set.
    pub open spec fn blank() -> ConfigModel {
        ConfigModel {
            last_app: None,
            theme: Theme::Latte,
            accent: Accent::Rosewater,
            jellyfin: JellyfinModel::blank(),
            sonarr_host: Seq::empty(),
            radarr_host: Seq::empty(),
        }
    }

    /// The settings with the device's identity filled in where it is missing.
    pub open spec fn identified(self, device: Seq<char>, device_id: Seq<char>) -> ConfigModel {
        ConfigModel { jellyfin: self.jellyfin.identified(device, device_id), ..self }
    }
}

impl Default for Config {
    fn default() -> (config: Config)
        ensures
            config@ == ConfigModel::blank(),
    {
        Config {
            last_app: None,
            theme: Theme::Latte,
            accent: Accent::Rosewater,
            jellyfin: JellyfinConfig::default(),
            sonarr: SonarrConfig { host: String::new() },
            radarr: RadarrConfig { host: String::new() },
        }
    }
}

/// A hexadecimal digit as a version 4 identifier is written.
pub open spec fn hex_digit(c: char) -> bool {
    ('0' <= c && c <= '9') || ('a' <= c && c <= 'f')
}

/// The shape of an identifier in its hyphenated form: groups of 8, 4, 4, 4 and
/// 12 lowercase hexadecimal digits.
pub open spec fn is_uuid(text: Seq<char>) -> bool {
    &&& text.len() == 36
    &&& forall|i: int|
        0 <= i < 36 ==> if i == 8 || i == 13 || i == 18 || i == 23 {
            #[trigger] text[i] == '-'
        } else {
            hex_digit(text[i])
        }
}

/// `Uuid::new_v4`, written out by `Uuid::to_string`: the hyphenated form of 16
/// random bytes. Which one comes out is left to chance.
#[verifier::external_body]
fn random_id() -> (id: String)
    ensures
        is_uuid(id@),
{
    uuid::Uuid::new_v4().to_string()
}

/// `gethostname::gethostname`, with what is not Unicode replaced. The name is
/// the machine's, so nothing is said of it.
#[verifier::external_body]
fn host_name() -> (name: String) {
    gethostname::gethostname().to_string_lossy().into_owned()
}

impl JellyfinConfig {
    /// Fill the device's identity in where it is missing.
    pub fn identify(&mut self, device: String, device_id: String)
        ensures
            final(self)@ == old(self)@.identified(device@, device_id@),
    {
        if self.device.as_str().is_empty() {
            self.device = device;
        }
        if self.device_id.as_str().is_empty() {
            self.device_id = device_id;
        }
    }
}

impl Config {
    /// Fill the device's identity in on the first run: the machine's name and
    /// a random id. What was filled in once stays.
    pub fn ensure_identity(&mut self)
        ensures
            exists|device: Seq<char>, device_id: Seq<char>|
                is_uuid(device_id) && final(self)@ == #[trigger] old(self)@.identified(
                    device,
                    device_id,
                ),
    {
        let device: String = host_name();
        let device_id: String = random_id();
        let ghost names = (device@, device_id@);
        self.jellyfin.identify(device, device_id);
        assert(self@ == old(self)@.identified(names.0, names.1));
    }

    /// The settings to run with: what the file held, or blank ones where there
    /// was none (the first run), with the device's identity filled in. They are
    /// to be written back before they are used.
    pub fn load_or_init(stored: Option<Config>) -> (config: Config)
        ensures
            exists|device: Seq<char>, device_id: Seq<char>|
                is_uuid(device_id) && config@ == #[trigger] to_run_with(
                    stored_view(stored),
                    device,
                    device_id,
                ),
    {
        let ghost before = stored_view(stored);
        let mut config: Config = match stored {
            Some(config) => config,
            None => Config::default(),
        };
        let ghost read = config@;
        config.ensure_identity();
        proof {
            let (device, device_id) = choose|device: Seq<char>, device_id: Seq<char>|
                is_uuid(device_id) && config@ == #[trigger] read.identified(device, device_id);
            assert(config@ == to_run_with(before, device, device_id));
        }
        config
    }
}

/// What a settings file held, as values.
pub open spec fn stored_view(stored: Option<Config>) -> Option<ConfigModel> {
    match stored {
        Some(config) => Some(config@),
        None => None,
    }
}

/// The settings to run with, for what the file held and the machine's identity.
pub open spec fn to_run_with(
    stored: Option<ConfigModel>,
    device: Seq<char>,
    device_id: Seq<char>,
) -> ConfigModel {
    match stored {
        Some(config) => config.identified(device, device_id),
        None => ConfigModel::blank().identified(device, device_id),
    }
}

/// A first run leaves blank settings with the machine's identity, and whoever
/// runs with what was written finds it unchanged, the identity above all,
/// whatever the machine is called by then.
pub proof fn law_settings_come_back_unchanged(
    stored: Option<ConfigModel>,
    device: Seq<char>,
    device_id: Seq<char>,
    other: Seq<char>,
    other_id: Seq<char>,
)
    requires
        device.len() > 0,
        is_uuid(device_id),
    ensures
        to_run_with(None, device, device_id) == (ConfigModel {
            jellyfin: JellyfinModel { device, device_id, ..JellyfinModel::blank() },
            ..ConfigModel::blank()
        }),
        to_run_with(Some(to_run_with(stored, device, device_id)), other, other_id) == to_run_with(
            stored,
            device,
            device_id,
        ),
{
}

/// Filling the identity in a second time changes nothing.
pub proof fn law_identity_is_kept(
    config: JellyfinModel,
    device: Seq<char>,
    device_id: Seq<char>,
    other: Seq<char>,
    other_id: Seq<char>,
)
    requires
        device.len() > 0,
        device_id.len() > 0,
    ensures
        config.identified(device, device_id).identified(other, other_id) == config.identified(
            device,
            device_id,
        ),
{
}

/// Per-movie / per-series remembered track switches. A field left `None` falls
/// through to the global preference.
#[derive(Debug)]
pub struct LanguageOverride {
    pub audio: Option<TrackPreference>,
    pub subtitles: Option<TrackPreference>,
}

/// Resolved preferences handed to the player; `None` leaves it alone.
#[derive(Debug)]
pub struct LanguagePrefs {
    pub audio: Option<TrackPreference>,
    pub subtitles: Option<TrackPreference>,
}

/// Two track choices as values.
#[verifier::ext_equal]
pub struct PrefsModel {
    pub audio: Option<TrackModel>,
    pub subtitles: Option<TrackModel>,
}

impl View for LanguageOverride {
    type V = PrefsModel;

    open spec fn view(&self) -> PrefsModel {
        PrefsModel { audio: opt_track(self.audio), subtitles: opt_track(self.subtitles) }
    }
}

impl View for LanguagePrefs {
    type V = PrefsModel;

    open spec fn view(&self) -> PrefsModel {
        PrefsModel { audio: opt_track(self.audio), subtitles: opt_track(self.subtitles) }
    }
}

impl PrefsModel {
    pub open spec fn unset() -> PrefsModel {
        PrefsModel { audio: None, subtitles: None }
    }

    /// The choices, each one falling back to another where it is unset.
    pub open spec fn or(self, other: PrefsModel) -> PrefsModel {
        PrefsModel {
            audio: if self.audio is Some {
                self.audio
            } else {
                other.audio
            },
            subtitles: if self.subtitles is Some {
                self.subtitles
            } else {
                other.subtitles
            },
        }
    }
}

/// The remembered track switches, keyed by item id (movies) or series id
/// (episodes); no key occurs twice.
#[derive(Debug)]
pub struct LanguageOverrides {
    pub entries: Vec<(String, LanguageOverride)>,
}

/// The position of the entry with a key.
pub open spec fn entry_at(entries: Seq<(String, LanguageOverride)>, key: Seq<char>) -> Option<int>
    decreases entries.len(),
{
    if entries.len() == 0 {
        None
    } else if entries.last().0@ == key {
        Some(entries.len() - 1)
    } else {
        entry_at(entries.drop_last(), key)
    }
}

proof fn lemma_entry_at(entries: Seq<(String, LanguageOverride)>, key: Seq<char>)
    ensures
        match entry_at(entries, key) {
            Some(i) => 0 <= i < entries.len() && entries[i].0@ == key,
            None => forall|i: int| 0 <= i < entries.len() ==> (#[trigger] entries[i]).0@ != key,
        },
    decreases entries.len(),
{
    if entries.len() > 0 && entries.last().0@ != key {
        lemma_entry_at(entries.drop_last(), key);
        if entry_at(entries, key) is None {
            assert forall|i: int| 0 <= i < entries.len() implies (#[trigger] entries[i]).0@
                != key by {
                if i < entries.len() - 1 {
                    assert(entries.drop_last()[i].0@ != key);
                }
            }
        }
    }
}

impl View for LanguageOverrides {
    type V = Map<Seq<char>, PrefsModel>;

    open spec fn view(&self) -> Map<Seq<char>, PrefsModel> {
        overrides_map(self.entries@)
    }
}

/// What is remembered under each key.
pub open spec fn overrides_map(entries: Seq<(String, LanguageOverride)>) -> Map<
    Seq<char>,
    PrefsModel,
> {
    Map::new(
        |key: Seq<char>| entry_at(entries, key) is Some,
        |key: Seq<char>| entries[entry_at(entries, key)->0].1@,
    )
}

/// No key occurs twice.
pub open spec fn unique_keys(entries: Seq<(String, LanguageOverride)>) -> bool {
    forall|i: int, j: int|
        0 <= i < j < entries.len() ==> (#[trigger] entries[i]).0@ != (#[trigger] entries[j]).0@
}

/// A character that sets parts of a path off from each other, on whatever
/// machine.
pub open spec fn parts_path(c: char) -> bool {
    c == '/' || c == '\\' || c == ':'
}

/// A file's name alone, with no directory in front.
pub open spec fn is_file_name(name: Seq<char>) -> bool {
    &&& name.len() > 0
    &&& name != "."@
    &&& name != ".."@
    &&& forall|i: int| 0 <= i < name.len() ==> !parts_path(#[trigger] name[i])
}

/// A directory written without backslashes, drives and a server's name (two
/// slashes in front), and without a slash or a dot at its end.
pub open spec fn is_plain_dir(dir: Seq<char>) -> bool {
    &&& dir.len() > 0
    &&& !(dir.len() > 1 && dir[0] == '/' && dir[1] == '/')
    &&& dir.last() != '/'
    &&& dir.last() != '.'
    &&& forall|i: int| 0 <= i < dir.len() ==> #[trigger] dir[i] != '\\' && dir[i] != ':'
}

/// Whether a path names a file beside another: in the same directory, behind
/// the machine's separator.
pub open spec fn lies_beside(sibling: Seq<char>, path: Seq<char>, name: Seq<char>) -> bool {
    &&& sibling.len() >= name.len()
    &&& sibling.skip(sibling.len() - name.len()) == name
    &&& is_file_name(path) ==> sibling == name
    &&& forall|dir: Seq<char>, last: Seq<char>|
        path == #[trigger] (dir.push('/') + last) && is_plain_dir(dir) && is_file_name(last) ==> {
            ||| sibling == dir.push('/') + name
            ||| sibling == dir.push('\\') + name
        }
}

/// `Path::with_file_name`: the path of a file with another name beside the
/// given one. Claimed is that it ends in the name and, for a name alone and for
/// a directory written plainly, that the rest stays, up to the separator, which
/// is the machine's. How other forms (drives, servers, trailing dots) are put
/// together is left unsaid.
#[verifier::external_body]
fn sibling_path(path: &str, name: &str) -> (sibling: String)
    requires
        is_file_name(name@),
    ensures
        lies_beside(sibling@, path@, name@),
{
    std::path::Path::new(path).with_file_name(name).to_string_lossy().into_owned()
}

impl LanguageOverrides {
    /// No key occurs twice.
    pub open spec fn wf(self) -> bool {
        unique_keys(self.entries@)
    }

    pub fn new() -> (overrides: LanguageOverrides)
        ensures
            overrides.wf(),
            overrides@ == Map::<Seq<char>, PrefsModel>::empty(),
    {
        let overrides = LanguageOverrides { entries: Vec::new() };
        assert(overrides@ =~= Map::<Seq<char>, PrefsModel>::empty());
        overrides
    }

    /// The overrides file that belongs to a settings file: a sibling, so that
    /// moving the settings relocates both together.
    pub fn path_for(config_path: &str) -> (path: String)
        ensures
            lies_beside(path@, config_path@, "language_overrides.json"@),
    {
        proof {
            reveal_strlit("language_overrides.json");
            reveal_strlit(".");
            reveal_strlit("..");
            assert("language_overrides.json"@.len() != "."@.len());
            assert("language_overrides.json"@.len() != ".."@.len());
        }
        sibling_path(config_path, "language_overrides.json")
    }

    /// The position of the entry with a key.
    fn position(&self, key: &str) -> (at: Option<usize>)
        ensures
            match at {
                Some(i) => entry_at(self.entries@, key@) == Some(i as int) && i
                    < self.entries@.len(),
                None => entry_at(self.entries@, key@) is None,
            },
    {
        let mut n: usize = self.entries.len();
        assert(self.entries@.take(n as int) =~= self.entries@);
        while n > 0
            invariant
                n <= self.entries@.len(),
                entry_at(self.entries@.take(n as int), key@) == entry_at(self.entries@, key@),
            decreases n,
        {
            let ghost upto = self.entries@.take(n as int);
            assert(upto.last() == self.entries@[n - 1]);
            assert(upto.drop_last() =~= self.entries@.take(n - 1));
            if same_text(self.entries[n - 1].0.as_str(), key) {
                return Some(n - 1);
            }
            n -= 1;
        }
        None
    }

    /// The override slot for a movie/series key, created on first write: the
    /// returned slot is the entry, and nothing else changes.
    pub fn entry(&mut self, key: String) -> (slot: &mut LanguageOverride)
        requires
            old(self).wf(),
        ensures
            slot@ == (if old(self)@.dom().contains(key@) {
                old(self)@[key@]
            } else {
                PrefsModel::unset()
            }),
            final(self).wf(),
            final(self)@ == old(self)@.insert(key@, final(slot)@),
    {
        let ghost name = key@;
        let ghost before = self.entries@;
        let at: usize = match self.position(key.as_str()) {
            Some(i) => i,
            None => {
                self.entries.push((key, LanguageOverride { audio: None, subtitles: None }));
                self.entries.len() - 1
            },
        };
        proof {
            lemma_entry_at(before, name);
            if self.entries@ != before {
                assert(self.entries@.drop_last() =~= before);
            }
            lemma_slot(before, self.entries@, name, at as int);
        }
        &mut self.entries[at].1
    }

    /// Resolve what the player should be asked for, per field: a remembered
    /// override for this movie/show wins, otherwise the global preference.
    pub fn language_prefs(&self, key: &str, config: &JellyfinConfig) -> (prefs: LanguagePrefs)
        ensures
            prefs@ == (if self@.dom().contains(key@) {
                self@[key@]
            } else {
                PrefsModel::unset()
            }).or(
                PrefsModel {
                    audio: config@.audio_language,
                    subtitles: config@.subtitle_language,
                },
            ),
    {
        let mut prefs = LanguagePrefs {
            audio: copy_preference(&config.audio_language),
            subtitles: copy_preference(&config.subtitle_language),
        };
        if let Some(i) = self.position(key) {
            let entry: &LanguageOverride = &self.entries[i].1;
            if entry.audio.is_some() {
                prefs.audio = copy_preference(&entry.audio);
            }
            if entry.subtitles.is_some() {
                prefs.subtitles = copy_preference(&entry.subtitles);
            }
        }
        prefs
    }
}

/// A second value of an optional track choice.
pub fn copy_preference(preference: &Option<TrackPreference>) -> (copy: Option<TrackPreference>)
    ensures
        copy == *preference,
{
    match preference {
        Some(p) => Some(p.clone()),
        None => None,
    }
}

/// Writing through the slot at `at` writes the entry with the key, and keys
/// stay unique.
proof fn lemma_slot(
    before: Seq<(String, LanguageOverride)>,
    entries: Seq<(String, LanguageOverride)>,
    key: Seq<char>,
    at: int,
)
    requires
        0 <= at < entries.len(),
        entries[at].0@ == key,
        unique_keys(before),
        entries == before || (entry_at(before, key) is None && entries.drop_last() == before && at
            == before.len() && entries.len() == before.len() + 1),
    ensures
        unique_keys(entries),
        forall|e: (String, LanguageOverride)|
            e.0@ == key ==> unique_keys(#[trigger] entries.update(at, e)) && overrides_map(
                entries.update(at, e),
            ) == overrides_map(before).insert(key, e.1@),
{
    lemma_entry_at(before, key);
    assert forall|i: int, j: int| 0 <= i < j < entries.len() implies (#[trigger] entries[i]).0@
        != (#[trigger] entries[j]).0@ by {
        if j < before.len() {
            assert(before[i].0@ != before[j].0@);
        } else {
            assert(entries.drop_last()[i] == before[i]);
        }
    }
    assert forall|e: (String, LanguageOverride)| e.0@ == key implies unique_keys(
        #[trigger] entries.update(at, e),
    ) && overrides_map(entries.update(at, e)) == overrides_map(before).insert(key, e.1@) by {
        let after = entries.update(at, e);
        assert forall|i: int, j: int| 0 <= i < j < after.len() implies (#[trigger] after[i]).0@
            != (#[trigger] after[j]).0@ by {
            assert(entries[i].0@ != entries[j].0@);
        }
        assert forall|k: Seq<char>| #[trigger]
            overrides_map(after).dom().contains(k) == overrides_map(before).insert(
                key,
                e.1@,
            ).dom().contains(k) && (overrides_map(after).dom().contains(k) ==> overrides_map(
                after,
            )[k] == overrides_map(before).insert(key, e.1@)[k]) by {
            lemma_entry_at(after, k);
            lemma_entry_at(before, k);
            if k == key {
                assert(after[at].0@ == k);
                let found = entry_at(after, k)->0;
                if found != at {
                    assert(after[found].0@ == after[at].0@);
                    assert(false);
                }
            } else {
                if entry_at(before, k) is Some {
                    let i = entry_at(before, k)->0;
                    assert(before[i].0@ == k);
                    if entries != before {
                        assert(entries.drop_last()[i] == before[i]);
                    }
                    assert(entries[i] == before[i]);
                    assert(after[i] == before[i]);
                    let found = entry_at(after, k)->0;
                    assert(after[found].0@ == after[i].0@);
                }
                if entry_at(after, k) is Some {
                    let found = entry_at(after, k)->0;
                    assert(found != at);
                    assert(after[found] == entries[found]);
                    if entries != before {
                        assert(entries.drop_last()[found] == before[found]);
                    }
                    assert(before[found].0@ == k);
                }
            }
        }
        assert(overrides_map(after) =~= overrides_map(before).insert(key, e.1@));
    }
}

/// What is chosen for one title goes before what is set for all, each track by
/// itself.
pub proof fn law_each_track_falls_back_by_itself(own: PrefsModel, all: PrefsModel)
    ensures
        own.audio is Some ==> own.or(all).audio == own.audio,
        own.audio is None ==> own.or(all).audio == all.audio,
        own.subtitles is Some ==> own.or(all).subtitles == own.subtitles,
        own.subtitles is None ==> own.or(all).subtitles == all.subtitles,
        PrefsModel::unset().or(all) == all,
{
}

/// Filling in the identity sets only what is missing, and touches no other
/// setting.
pub proof fn law_only_a_missing_identity_is_filled_in(
    config: ConfigModel,
    device: Seq<char>,
    device_id: Seq<char>,
)
    ensures
        ({
            let t = config.identified(device, device_id);
            &&& config.jellyfin.device.len() > 0 ==> t.jellyfin.device == config.jellyfin.device
            &&& config.jellyfin.device.len() == 0 ==> t.jellyfin.device == device
            &&& config.jellyfin.device_id.len() > 0 ==> t.jellyfin.device_id
                == config.jellyfin.device_id
            &&& config.jellyfin.device_id.len() == 0 ==> t.jellyfin.device_id == device_id
            &&& t.jellyfin.host == config.jellyfin.host
            &&& t.jellyfin.username == config.jellyfin.username
            &&& t.jellyfin.user_id == config.jellyfin.user_id
            &&& t.jellyfin.skip_segments == config.jellyfin.skip_segments
            &&& t.jellyfin.audio_language == config.jellyfin.audio_language
            &&& t.jellyfin.subtitle_language == config.jellyfin.subtitle_language
            &&& t.last_app == config.last_app && t.theme == config.theme && t.accent
                == config.accent
            &&& t.sonarr_host == config.sonarr_host && t.radarr_host == config.radarr_host
        }),
{
}

} // verus!
