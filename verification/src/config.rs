//! The updater's configuration: set once, read many times.
//!
//! The configuration lives in a slot that the caller holds: `None` until
//! `set_config` has filled it.  Every function here takes the slot, so that
//! whoever guards it decides how long it is held.

use crate::text::{blank, is_blank, join_path, joined};
use vstd::prelude::*;
use vstd::string::StringExecFns;

verus! {

/// Server that is asked for patches where the application names none.
pub const DEFAULT_BASE_URL: &'static str = "https://api.shorebird.dev";

/// Channel that is followed where the application names none.
pub const DEFAULT_CHANNEL: &'static str = "stable";

/// Application id that is reported while no configuration is set.
pub const UNINITIALIZED_APP_ID: &'static str = "network-lib-not-initialized";

/// Release version that is reported while no configuration is set.
pub const UNINITIALIZED_RELEASE_VERSION: &'static str = "0.0.0";

/// Directory of the updater below a storage or cache directory.
pub const UPDATER_DIR: &'static str = "shorebird_updater";

/// Directory of downloaded patches below the updater's cache directory.
pub const DOWNLOADS_DIR: &'static str = "downloads";

/// Why a function on the configuration failed.
#[derive(Clone, Copy, Debug, PartialEq, Eq, Structural)]
pub enum UpdateError {
    /// No configuration has been set.
    ConfigNotInitialized,
    /// A configuration has been set before; the later one is ignored.
    AlreadyInitialized,
}

impl UpdateError {
    /// What `to_text` says of the error.
    pub open spec fn text(self) -> Seq<char> {
        match self {
            UpdateError::ConfigNotInitialized => "Updater config not initialized"@,
            UpdateError::AlreadyInitialized => "Updater already initialized, ignoring second shorebird_init call."@,
        }
    }

    /// The error in words.
    pub fn to_text(&self) -> (message: String)
        ensures
            message@ == self.text(),
    {
        match self {
            UpdateError::ConfigNotInitialized => String::from_str("Updater config not initialized"),
            UpdateError::AlreadyInitialized => String::from_str(
                "Updater already initialized, ignoring second shorebird_init call.",
            ),
        }
    }
}

/// What the application tells the updater when it starts.
#[derive(Clone, Debug, PartialEq, Eq)]
pub struct AppConfig {
    pub app_storage_dir: String,
    pub code_cache_dir: String,
    pub release_version: String,
    pub original_libapp_paths: Vec<String>,
}

/// What the application's `shorebird.yaml` holds.
#[derive(Clone, Debug, PartialEq, Eq)]
pub struct YamlConfig {
    pub app_id: String,
    pub channel: Option<String>,
    pub auto_update: Option<bool>,
    pub base_url: Option<String>,
    pub patch_public_key: Option<String>,
}

/// The updater's configuration.  `H` is the type of the network hooks and
/// `P` that of the file provider; the functions here carry both along
/// without looking into them.
#[derive(Clone, Debug)]
pub struct UpdateConfig<H, P> {
    pub storage_dir: String,
    pub download_dir: String,
    pub auto_update: bool,
    pub channel: String,
    pub app_id: String,
    pub release_version: String,
    pub libapp_path: String,
    pub base_url: String,
    pub download_url: Option<String>,
    pub network_hooks: H,
    pub file_provider: P,
    pub patch_public_key: Option<String>,
}

/// The processor architectures that the updater knows.
#[derive(Clone, Copy, Debug, PartialEq, Eq, Structural)]
pub enum Arch {
    X86,
    X86_64,
    Aarch64,
    Arm,
}

/// The operating systems that the updater knows.
#[derive(Clone, Copy, Debug, PartialEq, Eq, Structural)]
pub enum Platform {
    Macos,
    Linux,
    Windows,
    Android,
    Ios,
}

/// The name by which the command-line tools know `arch`.
pub open spec fn arch_name(arch: Arch) -> Seq<char> {
    match arch {
        Arch::X86 => "x86"@,
        Arch::X86_64 => "x86_64"@,
        Arch::Aarch64 => "aarch64"@,
        Arch::Arm => "arm"@,
    }
}

/// The name by which the command-line tools know `platform`.
pub open spec fn platform_name(platform: Platform) -> Seq<char> {
    match platform {
        Platform::Macos => "macos"@,
        Platform::Linux => "linux"@,
        Platform::Windows => "windows"@,
        Platform::Android => "android"@,
        Platform::Ios => "ios"@,
    }
}

/// The name by which the command-line tools know the architecture that the
/// library was built for.
pub fn current_arch(arch: Arch) -> (name: &'static str)
    ensures
        name@ == arch_name(arch),
{
    match arch {
        Arch::X86 => "x86",
        Arch::X86_64 => "x86_64",
        Arch::Aarch64 => "aarch64",
        Arch::Arm => "arm",
    }
}

/// The name by which the command-line tools know the operating system that
/// the library was built for.
pub fn current_platform(platform: Platform) -> (name: &'static str)
    ensures
        name@ == platform_name(platform),
{
    match platform {
        Platform::Macos => "macos",
        Platform::Linux => "linux",
        Platform::Windows => "windows",
        Platform::Android => "android",
        Platform::Ios => "ios",
    }
}

/// The updater's directory below a home directory on iOS.
pub open spec fn ios_updater_dir(home: Seq<char>) -> Seq<char> {
    joined(
        joined(joined(joined(home, "Library"@), "Application Support"@), "shorebird"@),
        UPDATER_DIR@,
    )
}

/// Where the updater keeps its state.  On iOS, where the process has a home
/// directory, that is `Library/Application Support/shorebird/shorebird_updater`
/// below it; elsewhere `shorebird_updater` below `app_storage_dir`.
pub open spec fn storage_path(app_storage_dir: Seq<char>, ios_home: Option<Seq<char>>) -> Seq<
    char,
> {
    match ios_home {
        Some(home) => ios_updater_dir(home),
        None => joined(app_storage_dir, UPDATER_DIR@),
    }
}

/// Where the updater keeps downloaded patches.  On iOS, where the process
/// has a home directory, that is `downloads` below the updater's directory
/// there; elsewhere `shorebird_updater/downloads` below `code_cache_dir`.
pub open spec fn cache_path(code_cache_dir: Seq<char>, ios_home: Option<Seq<char>>) -> Seq<char> {
    match ios_home {
        Some(home) => joined(ios_updater_dir(home), DOWNLOADS_DIR@),
        None => joined(joined(code_cache_dir, UPDATER_DIR@), DOWNLOADS_DIR@),
    }
}

/// The view of an optional string.
pub open spec fn text_of(s: Option<String>) -> Option<Seq<char>> {
    match s {
        Some(s) => Some(s@),
        None => None,
    }
}

fn updater_dir_on_ios(home: &str) -> (path: String)
    ensures
        path@ == ios_updater_dir(home@),
{
    let library = join_path(home, "Library");
    let support = join_path(library.as_str(), "Application Support");
    let shorebird = join_path(support.as_str(), "shorebird");
    join_path(shorebird.as_str(), UPDATER_DIR)
}

/// Where the updater keeps its state.  `ios_home` is the home directory of
/// the process on iOS, and `None` on every other system and where the
/// process has none.
pub fn get_platform_storage_path(app_storage_dir: &str, ios_home: &Option<String>) -> (path: String)
    ensures
        path@ == storage_path(app_storage_dir@, text_of(*ios_home)),
{
    match ios_home {
        Some(home) => updater_dir_on_ios(home.as_str()),
        None => join_path(app_storage_dir, UPDATER_DIR),
    }
}

/// Where the updater keeps downloaded patches.  `ios_home` is as for
/// `get_platform_storage_path`.
pub fn get_platform_cache_path(code_cache_dir: &str, ios_home: &Option<String>) -> (path: String)
    ensures
        path@ == cache_path(code_cache_dir@, text_of(*ios_home)),
{
    match ios_home {
        Some(home) => {
            let updater = updater_dir_on_ios(home.as_str());
            join_path(updater.as_str(), DOWNLOADS_DIR)
        },
        None => {
            let updater = join_path(code_cache_dir, UPDATER_DIR);
            join_path(updater.as_str(), DOWNLOADS_DIR)
        },
    }
}

/// Empties the slot, so that a configuration can be set again.
pub fn testing_reset_config<H, P>(config: &mut Option<UpdateConfig<H, P>>)
    ensures
        *final(config) is None,
{
    *config = None;
}

/// Calls `f` on the configuration, where one is set.
pub fn check_initialized_and_call<F, R, H, P>(
    f: F,
    maybe_config: &Option<UpdateConfig<H, P>>,
) -> (res: Result<R, UpdateError>) where F: FnOnce(&UpdateConfig<H, P>) -> Result<R, UpdateError>
    requires
        maybe_config matches Some(config) ==> call_requires(f, (&config,)),
    ensures
        match *maybe_config {
            Some(config) => call_ensures(f, (&config,), res),
            None => res == Err::<R, UpdateError>(UpdateError::ConfigNotInitialized),
        },
{
    match maybe_config {
        Some(config) => f(config),
        None => Err(UpdateError::ConfigNotInitialized),
    }
}

/// Calls `f` on the configuration in the slot `config`, where one is set.
pub fn with_config<F, R, H, P>(config: &Option<UpdateConfig<H, P>>, f: F) -> (res: Result<
    R,
    UpdateError,
>) where F: FnOnce(&UpdateConfig<H, P>) -> Result<R, UpdateError>
    requires
        config matches Some(set) ==> call_requires(f, (&set,)),
    ensures
        match *config {
            Some(set) => call_ensures(f, (&set,), res),
            None => res == Err::<R, UpdateError>(UpdateError::ConfigNotInitialized),
        },
{
    check_initialized_and_call(f, config)
}

/// Calls `f` on the slot `config`, which `f` may fill, change or empty.
pub fn with_config_mut<F, R, H, P>(config: &mut Option<UpdateConfig<H, P>>, f: F) -> (res: R) where
    F: FnOnce(&mut Option<UpdateConfig<H, P>>) -> R,

    requires
        forall|slot: &mut Option<UpdateConfig<H, P>>|
            *slot == *old(config) ==> call_requires(f, (slot,)),
    ensures
        exists|slot: &mut Option<UpdateConfig<H, P>>|
            *slot == *old(config) && *final(slot) == *final(config) && call_ensures(
                f,
                (slot,),
                res,
            ),
{
    f(config)
}

/// The configuration `config` with `new_base_url` as its server, unless
/// that is blank.
pub open spec fn with_base_url<H, P>(
    config: UpdateConfig<H, P>,
    new_base_url: String,
) -> UpdateConfig<H, P> {
    if is_blank(new_base_url@) {
        config
    } else {
        UpdateConfig { base_url: new_base_url, ..config }
    }
}

/// Makes `new_base_url` the server that is asked for patches.  A blank
/// string changes nothing, and neither does any string while no
/// configuration is set.  The call succeeds in every case.
pub fn update_base_url<H, P>(config: &mut Option<UpdateConfig<H, P>>, new_base_url: String) -> (res:
    Result<(), UpdateError>)
    ensures
        res is Ok,
        *final(config) == match *old(config) {
            Some(set) => Some(with_base_url(set, new_base_url)),
            None => None,
        },
{
    match config.take() {
        Some(set) => {
            let mut set = set;
            if !blank(new_base_url.as_str()) {
                set.base_url = new_base_url;
            }
            *config = Some(set);
        },
        None => {},
    }
    Ok(())
}

/// The download server that a request for `new_download_url` leaves: none
/// where none or a blank one is given.
pub open spec fn filtered_url(new_download_url: Option<String>) -> Option<String> {
    match new_download_url {
        Some(url) => if is_blank(url@) {
            None
        } else {
            Some(url)
        },
        None => None,
    }
}

/// Makes `new_download_url` the server from which patches are downloaded;
/// a blank string stands for none.  Nothing changes while no configuration
/// is set.  The call succeeds in every case.
pub fn update_download_url<H, P>(
    config: &mut Option<UpdateConfig<H, P>>,
    new_download_url: Option<String>,
) -> (res: Result<(), UpdateError>)
    ensures
        res is Ok,
        *final(config) == match *old(config) {
            Some(set) => Some(
                UpdateConfig { download_url: filtered_url(new_download_url), ..set },
            ),
            None => None,
        },
{
    match config.take() {
        Some(set) => {
            let mut set = set;
            set.download_url = match new_download_url {
                Some(url) => if blank(url.as_str()) {
                    None
                } else {
                    Some(url)
                },
                None => None,
            };
            *config = Some(set);
        },
        None => {},
    }
    Ok(())
}

/// The application's id, or `UNINITIALIZED_APP_ID` while no configuration
/// is set.  The call succeeds in every case.
pub fn get_app_id<H, P>(config: &Option<UpdateConfig<H, P>>) -> (res: Result<String, UpdateError>)
    ensures
        res matches Ok(id) && id@ == match *config {
            Some(set) => set.app_id@,
            None => UNINITIALIZED_APP_ID@,
        },
{
    match config {
        Some(set) => Ok(set.app_id.clone()),
        None => Ok(String::from_str(UNINITIALIZED_APP_ID)),
    }
}

/// The application's release version, or `UNINITIALIZED_RELEASE_VERSION`
/// while no configuration is set.  The call succeeds in every case.
pub fn get_release_version<H, P>(config: &Option<UpdateConfig<H, P>>) -> (res: Result<
    String,
    UpdateError,
>)
    ensures
        res matches Ok(version) && version@ == match *config {
            Some(set) => set.release_version@,
            None => UNINITIALIZED_RELEASE_VERSION@,
        },
{
    match config {
        Some(set) => Ok(set.release_version.clone()),
        None => Ok(String::from_str(UNINITIALIZED_RELEASE_VERSION)),
    }
}

/// Whether `set` is the configuration that `set_config` makes of its
/// arguments.
pub open spec fn configured<H, P>(
    set: UpdateConfig<H, P>,
    app_config: AppConfig,
    file_provider: P,
    libapp_path: String,
    yaml: YamlConfig,
    network_hooks: H,
    ios_home: Option<String>,
) -> bool {
    &&& set.storage_dir@ == storage_path(app_config.app_storage_dir@, text_of(ios_home))
    &&& set.download_dir@ == cache_path(app_config.code_cache_dir@, text_of(ios_home))
    &&& set.auto_update == match yaml.auto_update {
        Some(auto_update) => auto_update,
        None => true,
    }
    &&& set.channel@ == match yaml.channel {
        Some(channel) => channel@,
        None => DEFAULT_CHANNEL@,
    }
    &&& set.app_id@ == yaml.app_id@
    &&& set.release_version@ == app_config.release_version@
    &&& set.libapp_path == libapp_path
    &&& set.base_url@ == match yaml.base_url {
        Some(base_url) => base_url@,
        None => DEFAULT_BASE_URL@,
    }
    &&& set.download_url is None
    &&& set.network_hooks == network_hooks
    &&& set.file_provider == file_provider
    &&& text_of(set.patch_public_key) == text_of(yaml.patch_public_key)
}

/// Sets the configuration, once.  A second call fails with
/// `AlreadyInitialized` and leaves the first configuration as it is.
/// `ios_home` is as for `get_platform_storage_path`.
pub fn set_config<H, P>(
    config: &mut Option<UpdateConfig<H, P>>,
    app_config: AppConfig,
    file_provider: P,
    libapp_path: String,
    yaml: &YamlConfig,
    network_hooks: H,
    ios_home: &Option<String>,
) -> (res: Result<(), UpdateError>)
    ensures
        match *old(config) {
            Some(_) => {
                &&& res == Err::<(), UpdateError>(UpdateError::AlreadyInitialized)
                &&& *final(config) == *old(config)
            },
            None => {
                &&& res is Ok
                &&& *final(config) matches Some(set)
                &&& configured(
                    set,
                    app_config,
                    file_provider,
                    libapp_path,
                    *yaml,
                    network_hooks,
                    *ios_home,
                )
            },
        },
{
    if config.is_some() {
        return Err(UpdateError::AlreadyInitialized);
    }
    let storage_dir = get_platform_storage_path(app_config.app_storage_dir.as_str(), ios_home);
    let download_dir = get_platform_cache_path(app_config.code_cache_dir.as_str(), ios_home);
    let channel = match &yaml.channel {
        Some(channel) => channel.clone(),
        None => String::from_str(DEFAULT_CHANNEL),
    };
    let auto_update = match yaml.auto_update {
        Some(auto_update) => auto_update,
        None => true,
    };
    let base_url = match &yaml.base_url {
        Some(base_url) => base_url.clone(),
        None => String::from_str(DEFAULT_BASE_URL),
    };
    let patch_public_key = match &yaml.patch_public_key {
        Some(key) => Some(key.clone()),
        None => None,
    };
    let new_config = UpdateConfig {
        storage_dir,
        download_dir,
        channel,
        auto_update,
        app_id: yaml.app_id.clone(),
        release_version: app_config.release_version.clone(),
        libapp_path,
        base_url,
        download_url: None,
        network_hooks,
        file_provider,
        patch_public_key,
    };
    *config = Some(new_config);
    Ok(())
}

} // verus!
