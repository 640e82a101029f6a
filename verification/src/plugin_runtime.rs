//! The runtime for plugins, which is not there yet.

use vstd::prelude::*;

verus! {

/// A loaded WASM plugin instance.
#[derive(Debug)]
pub struct WasmPlugin {
    pub name: String,
    pub enabled: bool,
}

/// Manages the lifecycle of all loaded WASM plugins.
#[derive(Debug)]
pub struct WasmPluginRuntime {
    plugins: Vec<WasmPlugin>,
}

/// Errors that can occur when loading a WASM plugin.
#[derive(Debug)]
pub enum PluginLoadError {
    /// Plugin system is not yet implemented.
    NotImplemented,
    /// The plugin file could not be read.
    IoError(String),
    /// The WASM module failed to compile or instantiate.
    CompileError(String),
    /// The plugin does not export the required ABI functions.
    MissingExport(String),
}

impl WasmPluginRuntime {
    /// The loaded plugins.
    pub closed spec fn loaded(&self) -> Seq<WasmPlugin> {
        self.plugins@
    }

    /// Create an empty runtime with no plugins loaded.
    pub fn new() -> (r: WasmPluginRuntime)
        ensures
            r.loaded().len() == 0,
    {
        WasmPluginRuntime { plugins: Vec::new() }
    }

    /// Load a WASM plugin from the given file path. No plugin can be loaded yet.
    pub fn load_plugin(path: &str, name: &str) -> (r: Result<WasmPlugin, PluginLoadError>)
        ensures
            r == Err::<WasmPlugin, PluginLoadError>(PluginLoadError::NotImplemented),
    {
        let _ = (path, name);
        Err(PluginLoadError::NotImplemented)
    }

    /// Return the number of loaded plugins.
    pub fn plugin_count(&self) -> (r: usize)
        ensures
            r == self.loaded().len(),
    {
        self.plugins.len()
    }
}

impl Default for WasmPluginRuntime {
    fn default() -> (r: WasmPluginRuntime)
        ensures
            r.loaded().len() == 0,
    {
        WasmPluginRuntime::new()
    }
}

impl PluginLoadError {
    /// The text that a user sees.
    pub open spec fn text(self) -> Seq<char> {
        match self {
            PluginLoadError::NotImplemented => "WASM plugin system is not yet implemented"@,
            PluginLoadError::IoError(e) => "failed to read plugin file: "@ + e@,
            PluginLoadError::CompileError(e) => "failed to compile WASM module: "@ + e@,
            PluginLoadError::MissingExport(name) => "plugin missing required export: "@ + name@,
        }
    }

    /// The text that a user sees.
    pub fn message(&self) -> (r: String)
        ensures
            r@ == self.text(),
            r@ == match *self {
                PluginLoadError::NotImplemented => "WASM plugin system is not yet implemented"@,
                PluginLoadError::IoError(e) => "failed to read plugin file: "@ + e@,
                PluginLoadError::CompileError(e) => "failed to compile WASM module: "@ + e@,
                PluginLoadError::MissingExport(name) => "plugin missing required export: "@ + name@,
            },
    {
        match self {
            PluginLoadError::NotImplemented => "WASM plugin system is not yet implemented".to_owned(),
            PluginLoadError::IoError(e) => {
                let mut m = "failed to read plugin file: ".to_owned();
                m.push_str(e.as_str());
                m
            },
            PluginLoadError::CompileError(e) => {
                let mut m = "failed to compile WASM module: ".to_owned();
                m.push_str(e.as_str());
                m
            },
            PluginLoadError::MissingExport(name) => {
                let mut m = "plugin missing required export: ".to_owned();
                m.push_str(name.as_str());
                m
            },
        }
    }
}

/// The text of an error ends with what it is about.
pub proof fn law_errors_say_what_they_are_about(e: PluginLoadError)
    ensures
        e matches PluginLoadError::IoError(m) ==> m@.is_suffix_of(e.text()),
        e matches PluginLoadError::CompileError(m) ==> m@.is_suffix_of(e.text()),
        e matches PluginLoadError::MissingExport(m) ==> m@.is_suffix_of(e.text()),
{
    let t = e.text();
    match e {
        PluginLoadError::IoError(m) | PluginLoadError::CompileError(m)
        | PluginLoadError::MissingExport(m) => {
            assert(t.subrange(t.len() - m@.len(), t.len() as int) =~= m@);
        },
        _ => {},
    }
}

} // verus!
