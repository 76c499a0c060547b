//! The tool's persisted settings: where the binary lives and which
//! resolution is preferred. The values come from a platform key-value store
//! that the surrounding front end reads and writes; the decisions about
//! what each lookup shape means are made here.

use vstd::prelude::*;
use vstd::string::*;

use crate::error_code::ErrorCode;
use crate::patch::Binary;
use crate::resolution::Resolution;

verus! {

/// One value looked up in the platform's key-value store, reduced to the
/// shapes the tool distinguishes.
#[derive(Debug)]
pub enum RegValue {
    Str(String),
    U32(u32),
    Other,
}

/// The loaded settings: the store's install path joined with the executable
/// name, an optional override path, the preferred resolution, and the bound
/// binary if one was detected.
#[derive(Debug)]
pub struct Settings {
    pub registry_path: String,
    pub override_path: Option<String>,
    pub resolution: Resolution,
    pub binary: Option<Binary>,
}

impl Settings {
    /// Decides the outcome of loading from the store's lookups: which
    /// failure each missing or mistyped value means, or the assembled
    /// settings. `entry_opened` says whether the store's entry could be
    /// opened at all; each lookup is `None` when it failed.
    pub fn load_from(
        entry_opened: bool,
        install_dir: Option<RegValue>,
        width: Option<RegValue>,
        height: Option<RegValue>,
        override_path: Option<String>,
        binary: Option<Binary>,
    ) -> (r: Result<Settings, ErrorCode>)
        ensures
            ({
                if !entry_opened {
                    r matches Err(ErrorCode::RegistryEntryNotFound)
                } else {
                    match (install_dir, width, height) {
                        (None, _, _) => r matches Err(ErrorCode::RegistryInstallDirNotFound),
                        (Some(RegValue::U32(_)) | Some(RegValue::Other), _, _) => r matches Err(
                            ErrorCode::RegistryInstallDirIncorrectType,
                        ),
                        (Some(RegValue::Str(_)), None, _) => r matches Err(
                            ErrorCode::RegistryResolutionWidthNotFound,
                        ),
                        (
                            Some(RegValue::Str(_)),
                            Some(RegValue::Str(_)) | Some(RegValue::Other),
                            _,
                        ) => r matches Err(ErrorCode::RegistryResolutionWidthIncorrectType),
                        (Some(RegValue::Str(_)), Some(RegValue::U32(_)), None) => r matches Err(
                            ErrorCode::RegistryResolutionHeightNotFound,
                        ),
                        (
                            Some(RegValue::Str(_)),
                            Some(RegValue::U32(_)),
                            Some(RegValue::Str(_)) | Some(RegValue::Other),
                        ) => r matches Err(ErrorCode::RegistryResolutionHeightIncorrectType),
                        (
                            Some(RegValue::Str(d)),
                            Some(RegValue::U32(w)),
                            Some(RegValue::U32(h)),
                        ) => r matches Ok(st) && st.registry_path@ == d@ + "\\eracer.exe"@
                            && st.override_path == override_path && st.resolution == (Resolution {
                            width: w,
                            height: h,
                        }) && st.binary == binary,
                    }
                }
            }),
    {
        if !entry_opened {
            return Err(ErrorCode::RegistryEntryNotFound);
        }
        let dir = match install_dir {
            None => {
                return Err(ErrorCode::RegistryInstallDirNotFound);
            },
            Some(RegValue::Str(d)) => d,
            Some(_) => {
                return Err(ErrorCode::RegistryInstallDirIncorrectType);
            },
        };
        let w = match width {
            None => {
                return Err(ErrorCode::RegistryResolutionWidthNotFound);
            },
            Some(RegValue::U32(w)) => w,
            Some(_) => {
                return Err(ErrorCode::RegistryResolutionWidthIncorrectType);
            },
        };
        let h = match height {
            None => {
                return Err(ErrorCode::RegistryResolutionHeightNotFound);
            },
            Some(RegValue::U32(h)) => h,
            Some(_) => {
                return Err(ErrorCode::RegistryResolutionHeightIncorrectType);
            },
        };
        let registry_path = dir.concat("\\eracer.exe");
        Ok(Settings { registry_path, override_path, resolution: Resolution::new(w, h), binary })
    }

    /// The path the tool works on: the override if one was given, else the
    /// store's install path.
    pub fn path(&self) -> (r: &String)
        ensures
            r@ == (match self.override_path {
                Some(p) => p@,
                None => self.registry_path@,
            }),
    {
        match &self.override_path {
            Some(p) => p,
            None => &self.registry_path,
        }
    }

    /// Applies the outcome of writing the two resolution values back to the
    /// store. The width is written first; a failed width write leaves the
    /// mirror untouched, a failed height write leaves the already-written
    /// width in the mirror — the mirror always matches what the store took.
    pub fn set_resolution(
        &mut self,
        resolution: Resolution,
        width_written: bool,
        height_written: bool,
    ) -> (r: Result<(), ErrorCode>)
        ensures
            final(self).registry_path == old(self).registry_path,
            final(self).override_path == old(self).override_path,
            final(self).binary == old(self).binary,
            !width_written ==> (r matches Err(ErrorCode::RegistryResolutionWidthChange)
                && final(self).resolution == old(self).resolution),
            width_written && !height_written ==> (r matches Err(
                ErrorCode::RegistryResolutionHeightChange,
            ) && final(self).resolution == (Resolution {
                width: resolution.width,
                height: old(self).resolution.height,
            })),
            width_written && height_written ==> r is Ok && final(self).resolution == resolution,
    {
        if !width_written {
            return Err(ErrorCode::RegistryResolutionWidthChange);
        }
        self.resolution.width = resolution.width;
        if !height_written {
            return Err(ErrorCode::RegistryResolutionHeightChange);
        }
        self.resolution.height = resolution.height;
        Ok(())
    }
}

} // verus!
