//! Data model of the media server's guide API, and the small pieces of
//! logic that read it: looking up a template's default settings and
//! picking the library directories of a media category.

use vstd::prelude::*;
use vstd::string::StringExecFns;

verus! {

/// Error raised while interpreting a guide response.
#[derive(Debug, PartialEq, Eq)]
pub enum PlexError {
    /// The response was well-formed but did not hold what the logic needs.
    PlexResponse(String),
}

/// A channel of the guide, identified by its grid key.
#[derive(Debug)]
pub struct Channel {
    pub id: String,
}

/// The media category of a grid entry.
#[derive(Debug, Clone, Copy, PartialEq, Eq, Structural)]
pub enum GridMetadataType {
    Movie,
    Show,
    Other,
}

/// One airing of a broadcast: the channel it airs on and its timeslot.
#[derive(Debug)]
pub struct GridMedia {
    pub id: u64,
    pub begins_at: i64,
    pub ends_at: i64,
    pub channel_identifier: String,
    pub channel_title: String,
}

/// One grid entry: a single broadcast of a show or movie, together with
/// any subscription already covering it at episode or series level.
#[derive(Debug)]
pub struct GridMetadata {
    pub rating_key: String,
    pub guid: String,
    pub title: String,
    pub grandparent_guid: Option<String>,
    pub grandparent_title: Option<String>,
    pub parent_guid: Option<String>,
    pub parent_title: Option<String>,
    pub parent_index: Option<u64>,
    pub index: Option<u64>,
    pub media_type: GridMetadataType,
    pub duration: u32,
    pub on_air: Option<bool>,
    pub subscription_id: Option<String>,
    pub subscription_type: Option<String>,
    pub grandparent_subscription_id: Option<String>,
    pub grandparent_subscription_type: Option<String>,
    pub grandparent_thumb: Option<String>,
    pub originally_available_at: String,
    pub media: Vec<GridMedia>,
}

impl GridMetadata {
    /// The broadcast's effective start: the start of its first airing,
    /// or 0 when it has none.
    pub open spec fn spec_begins_at_ts(&self) -> i64 {
        if self.media@.len() == 0 {
            0
        } else {
            self.media@[0].begins_at
        }
    }

    /// Unix timestamp at which the broadcast begins.
    pub fn begins_at_ts(&self) -> (r: i64)
        ensures
            r == self.spec_begins_at_ts(),
    {
        if self.media.len() == 0 {
            0
        } else {
            self.media[0].begins_at
        }
    }

    /// The title under which the broadcast is reported: the series
    /// title when there is one, else the entry's own title.
    pub fn show_title(&self) -> (r: String)
        ensures
            r@ == match self.grandparent_title {
                Some(gt) => gt@,
                None => self.title@,
            },
    {
        match &self.grandparent_title {
            Some(gt) => gt.clone(),
            None => self.title.clone(),
        }
    }
}

/// One named default of a subscription template.
#[derive(Debug)]
pub struct TemplateSetting {
    pub id: String,
    pub default_value: String,
}

/// The decoded parameter blocks of a template entry, copied verbatim
/// into an outgoing subscription.
#[derive(Debug)]
pub struct TemplateParameters {
    pub hints: SubscriptionHints,
    pub params: SubscriptionParams,
}

/// One entry of the subscription template list for a content guid.
#[derive(Debug)]
pub struct TemplateSubscription<T> {
    pub parameters: T,
    pub type_code: i16,
    pub target_section_location_id: i16,
    pub setting: Vec<TemplateSetting>,
}

/// The default value of the first setting named `id`, or `None` when no
/// setting of that name is in the list.
pub open spec fn spec_setting_default(s: Seq<TemplateSetting>, id: Seq<char>) -> Option<Seq<char>>
    decreases s.len(),
{
    if s.len() == 0 {
        None
    } else if s[0].id@ == id {
        Some(s[0].default_value@)
    } else {
        spec_setting_default(s.drop_first(), id)
    }
}

/// The message reported when a template lacks the setting named `id`.
pub open spec fn spec_missing_setting_msg(id: Seq<char>) -> Seq<char> {
    "Setting "@ + id + " not found"@
}

impl<T> TemplateSubscription<T> {
    /// Look up the default value of the setting named `id`, failing
    /// with a message naming the setting when it is absent.
    pub fn setting_default(&self, id: &str) -> (r: Result<String, PlexError>)
        ensures
            match spec_setting_default(self.setting@, id@) {
                Some(v) => r matches Ok(s) && s@ == v,
                None => r matches Err(PlexError::PlexResponse(m))
                    && m@ == spec_missing_setting_msg(id@),
            },
    {
        let id_owned: String = id.to_owned();
        let n = self.setting.len();
        let mut i: usize = 0;
        proof {
            assert(self.setting@.skip(0) =~= self.setting@);
        }
        while i < n
            invariant
                n == self.setting@.len(),
                i <= n,
                spec_setting_default(self.setting@, id@)
                    == spec_setting_default(self.setting@.skip(i as int), id@),
                id_owned@ == id@,
            decreases n - i,
        {
            if self.setting[i].id == id_owned {
                return Ok(self.setting[i].default_value.clone());
            }
            proof {
                assert(self.setting@.skip(i as int).drop_first()
                    =~= self.setting@.skip(i + 1 as int));
            }
            i = i + 1;
        }
        proof {
            assert(self.setting@.skip(n as int).len() == 0);
        }
        let msg = "Setting ".to_owned().concat(id).concat(" not found");
        Err(PlexError::PlexResponse(msg))
    }
}

/// The media category a library directory stores.
#[derive(Debug, Clone, Copy, PartialEq, Eq, Structural)]
pub enum ProviderDirectoryType {
    Movie,
    Show,
    Other,
}

/// A library directory of the media server: its category and identifier.
#[derive(Debug)]
pub struct ProviderDirectory {
    pub dir_type: Option<ProviderDirectoryType>,
    pub id: Option<String>,
}

impl Clone for ProviderDirectory {
    fn clone(&self) -> (res: Self)
        ensures
            res == *self,
    {
        ProviderDirectory {
            dir_type: self.dir_type,
            id: match &self.id {
                Some(s) => Some(s.clone()),
                None => None,
            },
        }
    }
}

/// One feature block of a media provider; the library feature carries
/// the provider's directories.
#[derive(Debug)]
pub struct ProvidersFeature {
    pub key: Option<String>,
    pub feature_type: String,
    pub directory: Option<Vec<ProviderDirectory>>,
}

/// One media provider of the server, with its feature blocks.
#[derive(Debug)]
pub struct ProvidersMediaProvider {
    pub identifier: String,
    pub title: String,
    pub feature: Vec<ProvidersFeature>,
}

/// The first provider whose identifier is the server's own library
/// plugin, or `None` when the listing has no such provider.
pub open spec fn spec_find_library_provider(
    s: Seq<ProvidersMediaProvider>,
) -> Option<ProvidersMediaProvider>
    decreases s.len(),
{
    if s.len() == 0 {
        None
    } else if s[0].identifier@ == "com.plexapp.plugins.library"@ {
        Some(s[0])
    } else {
        spec_find_library_provider(s.drop_first())
    }
}

/// The directories of `dirs` whose category is exactly `t`, in order.
pub open spec fn spec_dirs_matching(
    dirs: Seq<ProviderDirectory>,
    t: ProviderDirectoryType,
) -> Seq<ProviderDirectory>
    decreases dirs.len(),
{
    if dirs.len() == 0 {
        Seq::empty()
    } else if dirs.last().dir_type == Some(t) {
        spec_dirs_matching(dirs.drop_last(), t).push(dirs.last())
    } else {
        spec_dirs_matching(dirs.drop_last(), t)
    }
}

/// What listing the directories of category `t` yields: the matching
/// directories of the library provider's first feature, or the message
/// reported when the listing has no library provider, no feature, or no
/// directory block.
pub open spec fn spec_dirs_of_type(
    providers: Seq<ProvidersMediaProvider>,
    t: ProviderDirectoryType,
) -> Result<Seq<ProviderDirectory>, Seq<char>> {
    match spec_find_library_provider(providers) {
        None => Err("Plex is missing its library"@),
        Some(p) => if p.feature@.len() == 0 {
            Err("Plex library has no features"@)
        } else {
            match p.feature@[0].directory {
                None => Err("Plex library has no dirs"@),
                Some(dv) => Ok(spec_dirs_matching(dv@, t)),
            }
        },
    }
}

fn dir_type_matches(d: &ProviderDirectory, t: ProviderDirectoryType) -> (r: bool)
    ensures
        r == (d.dir_type == Some(t)),
{
    match &d.dir_type {
        Some(dt) => *dt == t,
        None => false,
    }
}

/// The library directories of category `dir_type` offered by the
/// provider listing: the directories of the library provider's first
/// feature whose category matches, in listing order.
pub fn get_dirs_of_type(
    providers: &Vec<ProvidersMediaProvider>,
    dir_type: ProviderDirectoryType,
) -> (r: Result<Vec<ProviderDirectory>, PlexError>)
    ensures
        match spec_dirs_of_type(providers@, dir_type) {
            Ok(ds) => r matches Ok(v) && v@ == ds,
            Err(m) => r matches Err(PlexError::PlexResponse(s)) && s@ == m,
        },
{
    let key: String = "com.plexapp.plugins.library".to_owned();
    let n = providers.len();
    let mut i: usize = 0;
    proof {
        assert(providers@.skip(0) =~= providers@);
    }
    while i < n
        invariant
            n == providers@.len(),
            i <= n,
            spec_find_library_provider(providers@)
                == spec_find_library_provider(providers@.skip(i as int)),
            key@ == "com.plexapp.plugins.library"@,
        decreases n - i,
    {
        if providers[i].identifier == key {
            return dirs_of_provider(providers, i, dir_type);
        }
        proof {
            assert(providers@.skip(i as int).drop_first()
                =~= providers@.skip(i + 1 as int));
        }
        i = i + 1;
    }
    proof {
        assert(providers@.skip(n as int).len() == 0);
    }
    Err(PlexError::PlexResponse("Plex is missing its library".to_owned()))
}

fn dirs_of_provider(
    providers: &Vec<ProvidersMediaProvider>,
    i: usize,
    dir_type: ProviderDirectoryType,
) -> (r: Result<Vec<ProviderDirectory>, PlexError>)
    requires
        i < providers@.len(),
        spec_find_library_provider(providers@) == Some(providers@[i as int]),
    ensures
        match spec_dirs_of_type(providers@, dir_type) {
            Ok(ds) => r matches Ok(v) && v@ == ds,
            Err(m) => r matches Err(PlexError::PlexResponse(s)) && s@ == m,
        },
{
    let p = &providers[i];
    if p.feature.len() == 0 {
        return Err(PlexError::PlexResponse("Plex library has no features".to_owned()));
    }
    match &p.feature[0].directory {
        None => Err(PlexError::PlexResponse("Plex library has no dirs".to_owned())),
        Some(dirs) => {
            let mut matching: Vec<ProviderDirectory> = Vec::new();
            let m = dirs.len();
            let mut j: usize = 0;
            while j < m
                invariant
                    m == dirs@.len(),
                    j <= m,
                    matching@ == spec_dirs_matching(dirs@.take(j as int), dir_type),
                decreases m - j,
            {
                if dir_type_matches(&dirs[j], dir_type) {
                    matching.push(dirs[j].clone());
                }
                proof {
                    assert(dirs@.take(j + 1 as int).drop_last() =~= dirs@.take(j as int));
                    assert(dirs@.take(j + 1 as int).last() == dirs@[j as int]);
                }
                j = j + 1;
            }
            proof {
                assert(dirs@.take(m as int) =~= dirs@);
            }
            Ok(matching)
        },
    }
}

/// The preference block of an outgoing subscription: template defaults
/// plus the computed channel, timeslot, and fixed offsets.
#[derive(Debug)]
pub struct SubscriptionPrefs {
    pub min_video_quality: String,
    pub replace_lower_quality: String,
    pub record_partials: String,
    pub start_offset_minutes: u8,
    pub end_offset_minutes: u8,
    pub lineup_channel: String,
    pub start_timeslot: i64,
    pub comskip_enabled: String,
    pub comskip_method: String,
    pub one_shot: String,
    pub remote_media: String,
}

/// Identifying metadata copied verbatim from the template into an
/// outgoing subscription.
#[derive(Debug)]
pub struct SubscriptionHints {
    pub grandparent_guid: Option<String>,
    pub grandparent_thumb: Option<String>,
    pub grandparent_title: Option<String>,
    pub guid: String,
    pub index: Option<String>,
    pub originally_available_at: Option<String>,
    pub parent_guid: Option<String>,
    pub parent_index: Option<String>,
    pub parent_title: Option<String>,
    pub rating_key: String,
    pub title: String,
    pub hint_type: String,
}

fn clone_opt_string(o: &Option<String>) -> (r: Option<String>)
    ensures
        r == *o,
{
    match o {
        Some(s) => Some(s.clone()),
        None => None,
    }
}

impl Clone for SubscriptionHints {
    fn clone(&self) -> (res: Self)
        ensures
            res == *self,
    {
        SubscriptionHints {
            grandparent_guid: clone_opt_string(&self.grandparent_guid),
            grandparent_thumb: clone_opt_string(&self.grandparent_thumb),
            grandparent_title: clone_opt_string(&self.grandparent_title),
            guid: self.guid.clone(),
            index: clone_opt_string(&self.index),
            originally_available_at: clone_opt_string(&self.originally_available_at),
            parent_guid: clone_opt_string(&self.parent_guid),
            parent_index: clone_opt_string(&self.parent_index),
            parent_title: clone_opt_string(&self.parent_title),
            rating_key: self.rating_key.clone(),
            title: self.title.clone(),
            hint_type: self.hint_type.clone(),
        }
    }
}

/// Airing and provider parameters copied verbatim from the template
/// into an outgoing subscription.
#[derive(Debug)]
pub struct SubscriptionParams {
    pub airing_channels: String,
    pub airing_times: String,
    pub library_type: String,
    pub media_provider_id: String,
}

impl Clone for SubscriptionParams {
    fn clone(&self) -> (res: Self)
        ensures
            res == *self,
    {
        SubscriptionParams {
            airing_channels: self.airing_channels.clone(),
            airing_times: self.airing_times.clone(),
            library_type: self.library_type.clone(),
            media_provider_id: self.media_provider_id.clone(),
        }
    }
}

/// A complete recording request, ready to submit to the media server.
#[derive(Debug)]
pub struct Subscription {
    pub prefs: SubscriptionPrefs,
    pub hints: SubscriptionHints,
    pub params: SubscriptionParams,
    pub target_library_section_id: String,
    pub target_library_location_id: String,
    pub include_grabs: i8,
}

} // verus!
