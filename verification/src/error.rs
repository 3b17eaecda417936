use vstd::prelude::*;
use vstd::string::*;

verus! {

/// Errors raised by the engine.
///
/// `Utf8Error` carries the rendered message of the UTF-8 conversion failure
/// that caused it.
#[derive(Debug, Clone, PartialEq, Eq)]
pub enum NUError {
    ShaderLoadError,
    ShaderCreateError,
    ShaderCompilationError(String),
    ShaderLinkError(String),
    ShaderProgramCreateError,
    VertexAttribError,
    NulError(String),
    Utf8Error(String),
    WindowBuildError,
    SDLError(String),
    MiniPNGError(String),
    MiscError(String),
}

/// The text that the engine shows for an error.
pub open spec fn nu_error_message(e: NUError) -> Seq<char> {
    match e {
        NUError::ShaderLoadError => "Error loading shader"@,
        NUError::ShaderCreateError => "Error creating shader"@,
        NUError::ShaderCompilationError(s) => "Error compiling shader: "@ + s@,
        NUError::ShaderLinkError(s) => "Error linking shader: "@ + s@,
        NUError::ShaderProgramCreateError => "Error creating shader program"@,
        NUError::VertexAttribError => "Error setting up vertex attribute data"@,
        NUError::NulError(s) => "Error "@ + s@,
        NUError::Utf8Error(s) => s@,
        NUError::WindowBuildError => "Error building sdl2 window"@,
        NUError::SDLError(s) => "Error initializing sdl2: "@ + s@,
        NUError::MiniPNGError(s) => "MiniPNG error: "@ + s@,
        NUError::MiscError(s) => "Miscellaneous error: "@ + s@,
    }
}

/// A `MiscError` whose message is `msg`.
pub open spec fn is_misc_error(e: NUError, msg: Seq<char>) -> bool {
    e matches NUError::MiscError(s) && s@ == msg
}

impl NUError {
    /// The message of this error, as the engine prints it.
    pub fn to_string(&self) -> (res: String)
        ensures
            res@ == nu_error_message(*self),
    {
        match self {
            NUError::ShaderLoadError => String::from_str("Error loading shader"),
            NUError::ShaderCreateError => String::from_str("Error creating shader"),
            NUError::ShaderCompilationError(s) => String::from_str("Error compiling shader: ").concat(
                s.as_str(),
            ),
            NUError::ShaderLinkError(s) => String::from_str("Error linking shader: ").concat(s.as_str()),
            NUError::ShaderProgramCreateError => String::from_str("Error creating shader program"),
            NUError::VertexAttribError => String::from_str("Error setting up vertex attribute data"),
            NUError::NulError(s) => String::from_str("Error ").concat(s.as_str()),
            NUError::Utf8Error(s) => s.clone(),
            NUError::WindowBuildError => String::from_str("Error building sdl2 window"),
            NUError::SDLError(s) => String::from_str("Error initializing sdl2: ").concat(s.as_str()),
            NUError::MiniPNGError(s) => String::from_str("MiniPNG error: ").concat(s.as_str()),
            NUError::MiscError(s) => String::from_str("Miscellaneous error: ").concat(s.as_str()),
        }
    }

    /// A `MiscError` with the given message.
    pub fn misc(msg: &str) -> (res: NUError)
        ensures
            is_misc_error(res, msg@),
    {
        NUError::MiscError(String::from_str(msg))
    }
}

} // verus!
