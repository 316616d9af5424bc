//! The presentation surface: its negotiated format and its mutable
//! configuration, reconfigured on every resize. The platform surface
//! handle itself is owned by the application; acquiring it, and acquiring
//! frames from it, are outside work whose outcomes are reported here.

use vstd::prelude::*;
use crate::PresentMode;
use crate::TextureFormat;
use crate::WindowSize;
use crate::adapter::AdapterError;
use crate::adapter::confirm_adapter;

verus! {

/// Failure to set a surface up at build time: either no compatible
/// adapter was obtained, or no format could be negotiated for the
/// adapter/surface pair and none was preferred by configuration.
#[derive(Clone, Copy, Debug, PartialEq, Eq, Structural)]
pub enum SurfaceError {
    NoPreferredFormat,
    AdapterNotObtained { source: AdapterError },
}

/// The mutable configuration of the presentable surface. The usage is
/// always render-attachment; the format is fixed at creation; width and
/// height follow the window across resizes.
#[derive(Clone, Copy, Debug, PartialEq, Eq, Structural)]
pub struct SurfaceConfiguration {
    pub format: TextureFormat,
    pub width: u32,
    pub height: u32,
    pub present_mode: PresentMode,
}

/// The format the surface ends up with: the configured preference when
/// one was given, otherwise whatever the adapter/surface pair negotiated.
pub open spec fn negotiated_format(
    preferred: Option<TextureFormat>,
    detected: Option<TextureFormat>,
) -> Option<TextureFormat> {
    if preferred is Some {
        preferred
    } else {
        detected
    }
}

/// The engine's view of the presentable surface.
#[derive(Clone, Copy, Debug, PartialEq, Eq, Structural)]
pub struct Surface {
    pub configuration: SurfaceConfiguration,
}

impl Surface {
    /// Sets the surface up from the outcomes of the application's
    /// platform work: whether an adapter compatible with the surface was
    /// obtained, the format preference from configuration, and the format
    /// the adapter/surface pair negotiated. Fails when no adapter was
    /// obtained, and when no format is either preferred or negotiable.
    pub fn new(
        adapter_found: bool,
        preferred_format: Option<TextureFormat>,
        detected_format: Option<TextureFormat>,
        window_size: WindowSize,
        present_mode: PresentMode,
    ) -> (r: Result<Surface, SurfaceError>)
        ensures
            r is Ok <==> adapter_found && negotiated_format(preferred_format, detected_format)
                is Some,
            !adapter_found ==> r == Err::<Surface, SurfaceError>(
                SurfaceError::AdapterNotObtained { source: AdapterError::NotObtained },
            ),
            adapter_found && negotiated_format(preferred_format, detected_format) is None ==> r
                == Err::<Surface, SurfaceError>(SurfaceError::NoPreferredFormat),
            adapter_found ==> (negotiated_format(preferred_format, detected_format) matches Some(f)
                ==> (r matches Ok(s) && s.configuration == (SurfaceConfiguration {
                format: f,
                width: window_size.width,
                height: window_size.height,
                present_mode,
            }))),
    {
        match confirm_adapter(adapter_found) {
            Ok(_) => {}
            Err(source) => {
                return Err(SurfaceError::AdapterNotObtained { source });
            }
        }
        let format = match preferred_format {
            Some(f) => f,
            None => {
                match detected_format {
                    Some(f) => f,
                    None => {
                        return Err(SurfaceError::NoPreferredFormat);
                    }
                }
            }
        };
        Ok(
            Surface {
                configuration: SurfaceConfiguration {
                    format,
                    width: window_size.width,
                    height: window_size.height,
                    present_mode,
                },
            },
        )
    }

    /// The texture format the surface was configured with.
    pub fn format(&self) -> (f: TextureFormat)
        ensures
            f == self.configuration.format,
    {
        self.configuration.format
    }

    /// Reconfigures the surface for a new window size; format and present
    /// mode are kept.
    pub fn update(&mut self, size: WindowSize)
        ensures
            *final(self) == (Surface {
                configuration: SurfaceConfiguration {
                    width: size.width,
                    height: size.height,
                    ..old(self).configuration
                },
            }),
    {
        self.configuration.width = size.width;
        self.configuration.height = size.height;
    }
}

/// Why acquiring the next presentable frame failed.
#[derive(Clone, Copy, Debug, PartialEq, Eq, Structural)]
pub enum FrameAcquireError {
    Timeout,
    Outdated,
    Lost,
    OutOfMemory,
}

/// The outcome of asking the surface for its next presentable frame.
#[derive(Clone, Copy, Debug, PartialEq, Eq, Structural)]
pub enum FrameAcquireOutcome {
    Available,
    Failed(FrameAcquireError),
}

/// How the render loop must treat a frame-acquisition failure.
#[derive(Clone, Copy, Debug, PartialEq, Eq, Structural)]
pub enum FrameErrorClass {
    /// Reconfigure the surface at the current size and retry the frame
    /// once; silent besides an optional diagnostic.
    Recoverable,
    /// Propagate and stop the render loop.
    Fatal,
}

impl FrameAcquireError {
    /// The class `classify` returns: an outdated or lost surface — and a
    /// timed-out acquisition, which the backend resolves on retry — are
    /// recoverable by reconfiguring; memory exhaustion is fatal.
    pub open spec fn class_spec(self) -> FrameErrorClass {
        match self {
            FrameAcquireError::Timeout => FrameErrorClass::Recoverable,
            FrameAcquireError::Outdated => FrameErrorClass::Recoverable,
            FrameAcquireError::Lost => FrameErrorClass::Recoverable,
            FrameAcquireError::OutOfMemory => FrameErrorClass::Fatal,
        }
    }

    /// Sorts a frame-acquisition failure into recoverable or fatal.
    pub fn classify(&self) -> (c: FrameErrorClass)
        ensures
            c == self.class_spec(),
    {
        match self {
            FrameAcquireError::Timeout => FrameErrorClass::Recoverable,
            FrameAcquireError::Outdated => FrameErrorClass::Recoverable,
            FrameAcquireError::Lost => FrameErrorClass::Recoverable,
            FrameAcquireError::OutOfMemory => FrameErrorClass::Fatal,
        }
    }
}

} // verus!
