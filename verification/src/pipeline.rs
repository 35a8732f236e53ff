//! The run as a verified state machine.
//!
//! One run is a linear pipeline — load the configuration, fetch the
//! metadata, check the media type, retrieve the asset, embed the tags,
//! persist — with a disjoint offline favorite mode selected up front. Every
//! decision of the run is made here, in `advance`; the binary only performs
//! the returned `Action` (a network call, a filesystem write) and feeds the
//! outcome back as the next `Event`. Any step may end in a terminal
//! `Failed` state; there is no recovery edge back into the pipeline.

use vstd::prelude::*;
use vstd::utf8::encode_utf8;
use crate::config::Config;
use crate::config::config_fields_ok;
use crate::config::config_matches;
use crate::config::parse_config;
use crate::error::ApodError;
use crate::exif::embed_tags;
use crate::exif::embedded_tags;
use crate::exif::encoder_accepts;
use crate::exif::fields_fit;
use crate::exif::jpeg_ok;
use crate::exif::payload_of;
use crate::exif::readable;
use crate::exif::tagset_clean;
use crate::exif::wanted_tags;
use crate::favorite::is_newest;
use crate::favorite::select_newest;
use crate::json::parsed_fields;
use crate::json::str_field;
use crate::picture::DailyPicture;
use crate::picture::media_is_image;
use crate::picture::parse_daily_picture;
use crate::picture::picture_fields_ok;
use crate::picture::picture_matches;
use crate::text::extension_of;
use crate::text::get_file_extension;
use crate::text::image_file_name;
use crate::text::join_path;
use crate::text::join_path_bytes;

verus! {

/// Everything the persistence step writes: the dated file name, the full
/// path of the stored file, the background path that receives a copy of it,
/// and the tagged image bytes.
pub struct PersistPlan {
    pub file_name: String,
    pub storage_path: String,
    pub background_path: String,
    pub bytes: Vec<u8>,
}

/// The stages of one run.
pub enum State {
    /// Waiting for the text of the configuration file.
    LoadingConfig { save: bool },
    /// Favorite mode: waiting for the storage directory's listing.
    SelectingFavorite { storage_dir: String, favorite_dir: String },
    /// Favorite mode: waiting for the symlink to be created.
    MakingLink,
    /// Waiting for the metadata response.
    FetchingMetadata { config: Config },
    /// Waiting for the image bytes.
    FetchingAsset { config: Config, picture: DailyPicture },
    /// Waiting for the stored file and the background copy to be written.
    Persisting,
    /// The run succeeded.
    Done,
    /// The run failed; terminal.
    Failed { error: ApodError },
}

/// The outcomes the binary reports back.
pub enum Event {
    /// The configuration file's text, `None` when it cannot be read.
    ConfigText { text: Option<String> },
    /// The storage directory's entry names as raw bytes, `None` when the
    /// directory cannot be read.
    Listing { names: Option<Vec<Vec<u8>>> },
    /// Whether the symlink was created.
    Linked { ok: bool },
    /// Status and body of the metadata request, body `None` on transport
    /// failure.
    MetadataResponse { status: u16, body: Option<String> },
    /// Status and body of the image request, body `None` on transport
    /// failure.
    AssetResponse { status: u16, body: Option<Vec<u8>> },
    /// Whether the stored file and the background copy were written.
    Wrote { ok: bool },
}

/// What the binary must do next.
pub enum Action {
    /// List the directory and report `Listing`.
    ListStorage { dir: String },
    /// Create a symlink at `link` pointing to `target` and report `Linked`.
    CreateLink { target: Vec<u8>, link: Vec<u8> },
    /// Request the metadata with this key and report `MetadataResponse`.
    FetchMetadata { api_key: String },
    /// Request the image at this URL and report `AssetResponse`.
    FetchAsset { url: String },
    /// Write `plan.bytes` to `plan.storage_path`, copy that file to
    /// `plan.background_path`, and report `Wrote`.
    WriteAndCopy { plan: PersistPlan },
    /// The run succeeded; report and exit zero.
    Finish,
    /// The run failed; report the error and exit non-zero.
    Fail { error: ApodError },
    /// Nothing to do: the machine is terminal or the event did not belong
    /// to the stage.
    Idle,
}

/// The step failed with `e` and the machine is terminally failed.
pub open spec fn failure(post: State, action: Action, e: ApodError) -> bool {
    &&& post == (State::Failed { error: e })
    &&& action == (Action::Fail { error: e })
}

/// The run reached its successful end.
pub open spec fn finished(post: State, action: Action) -> bool {
    &&& post == State::Done
    &&& action == Action::Finish
}

/// The configuration was accepted: it holds exactly the text's four parsed
/// fields, and favorite mode proceeds to the directory listing of the
/// configured storage directory, fetch mode to the metadata request with
/// the configured key.
pub open spec fn config_accepted(
    save: bool,
    f: Map<Seq<char>, Option<Seq<char>>>,
    post: State,
    action: Action,
) -> bool {
    if save {
        &&& post matches State::SelectingFavorite { storage_dir, favorite_dir }
        &&& str_field(f, "storage_dir"@) == Some(storage_dir@)
        &&& str_field(f, "favorite_dir"@) == Some(favorite_dir@)
        &&& action matches Action::ListStorage { dir }
        &&& dir@ == storage_dir@
    } else {
        &&& post matches State::FetchingMetadata { config }
        &&& config_matches(f, config)
        &&& action matches Action::FetchMetadata { api_key }
        &&& api_key@ == config.api_key@
    }
}

/// The metadata was accepted: the picture holds exactly the body's parsed
/// fields, is an image, is carried into the next stage, and its URL is the
/// one requested next. Only here does a `FetchAsset` action arise.
pub open spec fn metadata_accepted(
    config: Config,
    f: Map<Seq<char>, Option<Seq<char>>>,
    post: State,
    action: Action,
) -> bool {
    &&& post matches State::FetchingAsset { config: c, picture }
    &&& c == config
    &&& picture_matches(f, picture)
    &&& picture.media_type@ == "image"@
    &&& action matches Action::FetchAsset { url }
    &&& url@ == picture.hdurl@
}

/// The listing was accepted: the newest name under byte-wise comparison was
/// selected, and the link to create carries that name in both directories.
pub open spec fn listing_accepted(
    storage_dir: String,
    favorite_dir: String,
    names: Seq<Vec<u8>>,
    post: State,
    action: Action,
) -> bool {
    &&& post == State::MakingLink
    &&& action matches Action::CreateLink { target, link }
    &&& exists|best: Seq<u8>|
        {
            &&& #[trigger] is_newest(names, best)
            &&& target@ == encode_utf8(storage_dir@) + seq![47u8] + best
            &&& link@ == encode_utf8(favorite_dir@) + seq![47u8] + best
        }
}

/// The asset was accepted: the buffer is a well-formed image the codec
/// accepts, the plan names the stored file `{date}.{ext}` inside the
/// storage directory, the background path receives the same file, and the
/// planned bytes are the fetched image with only its metadata segment
/// replaced, again well-formed and readable, carrying the picture's
/// embedded fields.
pub open spec fn asset_accepted(
    config: Config,
    picture: DailyPicture,
    bytes: Seq<u8>,
    post: State,
    action: Action,
) -> bool {
    &&& jpeg_ok(bytes)
    &&& fields_fit(picture)
    &&& encoder_accepts(bytes)
    &&& post == State::Persisting
    &&& action matches Action::WriteAndCopy { plan }
    &&& extension_of(picture.hdurl@) matches Some(ext)
    &&& plan.file_name@ == picture.date@ + "."@ + ext
    &&& plan.storage_path@ == config.storage_dir@ + "/"@ + plan.file_name@
    &&& plan.background_path@ == config.background_path@
    &&& jpeg_ok(plan.bytes@)
    &&& readable(plan.bytes@)
    &&& payload_of(plan.bytes@) == payload_of(bytes)
    &&& (tagset_clean(wanted_tags(picture)) ==> embedded_tags(plan.bytes@) == wanted_tags(
        picture,
    ))
}

/// The transition relation of the machine: every step `advance` takes is
/// one of these.
pub open spec fn transition(pre: State, event: Event, post: State, action: Action) -> bool {
    match (pre, event) {
        (State::LoadingConfig { save }, Event::ConfigText { text }) => match text {
            None => failure(post, action, ApodError::ConfigError),
            Some(t) => {
                if !config_fields_ok(parsed_fields(t@)) {
                    failure(post, action, ApodError::ConfigError)
                } else {
                    config_accepted(save, parsed_fields(t@)->0, post, action)
                }
            },
        },
        (
            State::SelectingFavorite { storage_dir, favorite_dir },
            Event::Listing { names },
        ) => match names {
            None => failure(post, action, ApodError::DirectoryError),
            Some(ns) => {
                if ns@.len() == 0 {
                    failure(post, action, ApodError::DirectoryError)
                } else {
                    listing_accepted(storage_dir, favorite_dir, ns@, post, action)
                }
            },
        },
        (State::MakingLink, Event::Linked { ok }) => {
            if ok {
                finished(post, action)
            } else {
                failure(post, action, ApodError::LinkError)
            }
        },
        (State::FetchingMetadata { config }, Event::MetadataResponse { status, body }) => match
            body {
            None => failure(post, action, ApodError::FetchError),
            Some(b) => {
                if status != 200 {
                    failure(post, action, ApodError::FetchError)
                } else if !picture_fields_ok(parsed_fields(b@)) {
                    failure(post, action, ApodError::SchemaError)
                } else if str_field(parsed_fields(b@)->0, "media_type"@) != Some("image"@) {
                    failure(post, action, ApodError::MediaTypeError)
                } else {
                    metadata_accepted(config, parsed_fields(b@)->0, post, action)
                }
            },
        },
        (State::FetchingAsset { config, picture }, Event::AssetResponse { status, body }) => match
            body {
            None => failure(post, action, ApodError::FetchError),
            Some(bytes) => {
                if status != 200 {
                    failure(post, action, ApodError::FetchError)
                } else if !(jpeg_ok(bytes@) && fields_fit(picture) && encoder_accepts(bytes@)) {
                    failure(post, action, ApodError::EncodingError)
                } else if extension_of(picture.hdurl@) is None {
                    failure(post, action, ApodError::ExtensionError)
                } else {
                    asset_accepted(config, picture, bytes@, post, action)
                }
            },
        },
        (State::Persisting, Event::Wrote { ok }) => {
            if ok {
                finished(post, action)
            } else {
                failure(post, action, ApodError::IoError)
            }
        },
        (State::Done, _) => post == State::Done && action == Action::Idle,
        (State::Failed { error }, _) => post == (State::Failed { error }) && action
            == Action::Idle,
        _ => post == pre && action == Action::Idle,
    }
}

/// The state a run starts in, before the configuration is read.
pub fn initial_state(save: bool) -> (s: State)
    ensures
        s == (State::LoadingConfig { save }),
{
    State::LoadingConfig { save }
}

/// One step of the run: consumes the stage and the reported outcome,
/// returns the next stage and what the binary must do.
pub fn advance(pre: State, event: Event) -> (r: (State, Action))
    ensures
        transition(pre, event, r.0, r.1),
{
    match (pre, event) {
        (State::LoadingConfig { save }, Event::ConfigText { text }) => match text {
            None => fail_pair(ApodError::ConfigError),
            Some(t) => match parse_config(t.as_str()) {
                Err(e) => fail_pair(e),
                Ok(cfg) => {
                    if save {
                        let dir = cfg.storage_dir.clone();
                        (
                            State::SelectingFavorite {
                                storage_dir: cfg.storage_dir,
                                favorite_dir: cfg.favorite_dir,
                            },
                            Action::ListStorage { dir },
                        )
                    } else {
                        let api_key = cfg.api_key.clone();
                        (
                            State::FetchingMetadata { config: cfg },
                            Action::FetchMetadata { api_key },
                        )
                    }
                },
            },
        },
        (
            State::SelectingFavorite { storage_dir, favorite_dir },
            Event::Listing { names },
        ) => match names {
            None => fail_pair(ApodError::DirectoryError),
            Some(ns) => match select_newest(&ns) {
                Err(e) => fail_pair(e),
                Ok(best) => {
                    let target = join_path_bytes(storage_dir.as_str(), &best);
                    let link = join_path_bytes(favorite_dir.as_str(), &best);
                    (State::MakingLink, Action::CreateLink { target, link })
                },
            },
        },
        (State::MakingLink, Event::Linked { ok }) => {
            if ok {
                (State::Done, Action::Finish)
            } else {
                fail_pair(ApodError::LinkError)
            }
        },
        (State::FetchingMetadata { config }, Event::MetadataResponse { status, body }) => match
            body {
            None => fail_pair(ApodError::FetchError),
            Some(b) => {
                if status != 200 {
                    fail_pair(ApodError::FetchError)
                } else {
                    match parse_daily_picture(b.as_str()) {
                        Err(e) => fail_pair(e),
                        Ok(picture) => {
                            if media_is_image(&picture) {
                                let url = picture.hdurl.clone();
                                (
                                    State::FetchingAsset { config, picture },
                                    Action::FetchAsset { url },
                                )
                            } else {
                                fail_pair(ApodError::MediaTypeError)
                            }
                        },
                    }
                }
            },
        },
        (State::FetchingAsset { config, picture }, Event::AssetResponse { status, body }) => match
            body {
            None => fail_pair(ApodError::FetchError),
            Some(bytes) => {
                if status != 200 {
                    fail_pair(ApodError::FetchError)
                } else {
                    let mut buf = bytes;
                    match embed_tags(&picture, &mut buf) {
                        Err(e) => fail_pair(e),
                        Ok(()) => match get_file_extension(picture.hdurl.as_str()) {
                            Err(e) => fail_pair(e),
                            Ok(ext) => {
                                let file_name = image_file_name(picture.date.as_str(), ext);
                                let storage_path = join_path(
                                    config.storage_dir.as_str(),
                                    file_name.as_str(),
                                );
                                let plan = PersistPlan {
                                    file_name,
                                    storage_path,
                                    background_path: config.background_path,
                                    bytes: buf,
                                };
                                (State::Persisting, Action::WriteAndCopy { plan })
                            },
                        },
                    }
                }
            },
        },
        (State::Persisting, Event::Wrote { ok }) => {
            if ok {
                (State::Done, Action::Finish)
            } else {
                fail_pair(ApodError::IoError)
            }
        },
        (State::Done, _) => (State::Done, Action::Idle),
        (State::Failed { error }, _) => (State::Failed { error }, Action::Idle),
        (other, _) => (other, Action::Idle),
    }
}

/// The terminal pair for a failed step.
fn fail_pair(e: ApodError) -> (r: (State, Action))
    ensures
        failure(r.0, r.1, e),
{
    (State::Failed { error: e }, Action::Fail { error: e })
}

/// No asset is ever requested for a non-image entry: the only step that
/// emits a `FetchAsset` action is the acceptance of metadata whose
/// `media_type` is exactly `image`, and the requested URL is that picture's
/// `hdurl`.
pub proof fn lemma_fetch_only_for_images(pre: State, event: Event, post: State, action: Action)
    requires
        transition(pre, event, post, action),
        action matches Action::FetchAsset { .. },
    ensures
        ({
            &&& pre matches State::FetchingMetadata { .. }
            &&& post matches State::FetchingAsset { config: _, picture }
            &&& picture.media_type@ == "image"@
            &&& action matches Action::FetchAsset { url }
            &&& url@ == picture.hdurl@
        }),
{
}

/// A file write is planned only after the asset of an image entry was
/// retrieved, and then exactly one stored file is planned: named
/// `{date}.{ext}` inside the storage directory, with the same tagged bytes
/// sent on to the background path.
pub proof fn lemma_write_only_after_asset(pre: State, event: Event, post: State, action: Action)
    requires
        transition(pre, event, post, action),
        action matches Action::WriteAndCopy { .. },
    ensures
        ({
            &&& pre matches State::FetchingAsset { config, picture }
            &&& action matches Action::WriteAndCopy { plan }
            &&& extension_of(picture.hdurl@) matches Some(ext)
            &&& plan.file_name@ == picture.date@ + "."@ + ext
            &&& plan.storage_path@ == config.storage_dir@ + "/"@ + plan.file_name@
            &&& plan.background_path@ == config.background_path@
            &&& (tagset_clean(wanted_tags(picture)) ==> embedded_tags(plan.bytes@)
                == wanted_tags(picture))
            &&& post == State::Persisting
        }),
{
}

/// A configuration without the four required string fields — unreadable,
/// not valid JSON, or missing a key such as the API key — stops the run at
/// the loading stage with a `ConfigError`: nothing is listed, fetched,
/// linked or written.
pub proof fn lemma_bad_config_stops_the_run(pre: State, event: Event, post: State, action: Action)
    requires
        transition(pre, event, post, action),
        (pre matches State::LoadingConfig { .. }),
        (event matches Event::ConfigText { text } && (text matches Some(t)
            ==> !config_fields_ok(parsed_fields(t@)))),
    ensures
        failure(post, action, ApodError::ConfigError),
{
}

/// Favorite mode never touches the network and never writes a file: from
/// its stages no fetch and no write action can arise, and the run stays in
/// favorite-mode or terminal stages.
pub proof fn lemma_favorite_mode_offline(pre: State, event: Event, post: State, action: Action)
    requires
        transition(pre, event, post, action),
        ({
            ||| (pre matches State::LoadingConfig { save } && save)
            ||| (pre matches State::SelectingFavorite { .. })
            ||| pre == State::MakingLink
        }),
    ensures
        !(action matches Action::FetchMetadata { .. }),
        !(action matches Action::FetchAsset { .. }),
        !(action matches Action::WriteAndCopy { .. }),
        ({
            ||| (post matches State::SelectingFavorite { .. })
            ||| post == State::MakingLink
            ||| post == State::Done
            ||| (post matches State::Failed { .. })
            ||| post == pre
        }),
{
}

} // verus!
