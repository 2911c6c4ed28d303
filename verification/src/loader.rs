//! Module loading and teardown.
//!
//! Acquiring a freshly built module is outside work done by a
//! `ModuleSource`, staged so that the handshake can run between its
//! steps: first the binary is copied and mapped and its version query
//! resolved, then — only for a version that matches — the factory export
//! is called. The handshake decisions themselves, and the order in which
//! a running module is torn down, are verified here.

use vstd::prelude::*;
use vstd::string::StringExecFns;

use crate::plugin_api::Module;
use crate::ENGINE_API_VERSION;

verus! {

/// Handle to a mapped library. The loader side keeps the real
/// operating-system handle in a table under this id; the token is the
/// single owner of that slot.
pub struct LibraryToken {
    pub id: u64,
}

/// What the outside loading steps can report before any handshake runs:
/// the file could not be copied or mapped, or a required export is
/// missing.
#[derive(Debug)]
pub enum AcquireError {
    FileUnavailable(String),
    MissingSymbol(String),
}

/// A mapped module binary whose version query has been resolved and
/// called, but whose factory has not yet run: no function table and no
/// module state exist until the binary-interface version is checked.
pub struct ModuleCandidate {
    /// Binary-interface version the module reports.
    pub api_version: u32,
    pub lib: LibraryToken,
    /// Path of the uniquely named copy the module was mapped from.
    pub temp_path: String,
}

/// A module instance obtained from a candidate's factory export,
/// together with the state-layout hash it reports.
pub struct ModuleInstance<M> {
    pub module: M,
    /// State-layout hash the module reports.
    pub schema_hash: u64,
}

/// The outside half of the loader, in the order the load protocol uses
/// it: `acquire` copies the binary to a unique sibling path, maps it and
/// calls its version-query export; `instantiate` calls the factory
/// export of an acquired library — the host invokes it only after the
/// version handshake passed; `unload` releases the library handle and
/// best-effort deletes the temporary copy.
pub trait ModuleSource<M>: Sized {
    fn acquire(&mut self) -> Result<ModuleCandidate, AcquireError>;

    fn instantiate(&mut self, lib: &LibraryToken) -> Result<ModuleInstance<M>, AcquireError>;

    fn unload(&mut self, lib: LibraryToken, temp_path: String);
}

/// Why a load attempt was aborted. No module is ever partially
/// installed: each of these leaves the host without the candidate.
#[derive(Debug)]
pub enum LoadError {
    /// The module binary could not be copied or mapped.
    FileUnavailable(String),
    /// A required export is missing: the module does not conform to the
    /// contract.
    MissingSymbol(String),
    /// The module was built against another binary-interface version.
    VersionMismatch { host: u32, module: u32 },
    /// The module lays its private state out differently than the host
    /// expects, so a later restore would deserialize garbage.
    SchemaHashMismatch { host_hash: u64, module_hash: u64 },
}

/// The human-readable reason for a load fault.
pub open spec fn spec_message(e: LoadError) -> Seq<char> {
    match e {
        LoadError::FileUnavailable(m) => "Plugin file unavailable: "@ + m@,
        LoadError::MissingSymbol(m) => "Plugin missing export: "@ + m@,
        LoadError::VersionMismatch { host, module } => "Plugin version mismatch: engine "@
            + decimal_digits(host as nat) + ", plugin "@ + decimal_digits(module as nat),
        LoadError::SchemaHashMismatch { host_hash, module_hash } => {
            "Plugin state layout mismatch: host "@ + decimal_digits(host_hash as nat)
                + ", module "@ + decimal_digits(module_hash as nat)
        },
    }
}

impl LoadError {
    /// Renders the reason, for the host's error overlay.
    pub fn message(&self) -> (r: String)
        ensures
            r@ == spec_message(*self),
    {
        match self {
            LoadError::FileUnavailable(m) => {
                let mut s = String::from_str("Plugin file unavailable: ");
                s.append(m.as_str());
                s
            },
            LoadError::MissingSymbol(m) => {
                let mut s = String::from_str("Plugin missing export: ");
                s.append(m.as_str());
                s
            },
            LoadError::VersionMismatch { host, module } => {
                let mut s = String::from_str("Plugin version mismatch: engine ");
                let h = u64_to_string(*host as u64);
                s.append(h.as_str());
                s.append(", plugin ");
                let m = u64_to_string(*module as u64);
                s.append(m.as_str());
                proof {
                    assert(s@ =~= "Plugin version mismatch: engine "@ + decimal_digits(
                        *host as nat,
                    ) + ", plugin "@ + decimal_digits(*module as nat));
                }
                s
            },
            LoadError::SchemaHashMismatch { host_hash, module_hash } => {
                let mut s = String::from_str("Plugin state layout mismatch: host ");
                let h = u64_to_string(*host_hash);
                s.append(h.as_str());
                s.append(", module ");
                let m = u64_to_string(*module_hash);
                s.append(m.as_str());
                proof {
                    assert(s@ =~= "Plugin state layout mismatch: host "@ + decimal_digits(
                        *host_hash as nat,
                    ) + ", module "@ + decimal_digits(*module_hash as nat));
                }
                s
            },
        }
    }
}

/// A validated, callable module: its function table, the library handle
/// that must outlive every call through that table, and the temporary
/// copy the library was mapped from.
pub struct PluginHandle<M> {
    pub module: M,
    pub lib: LibraryToken,
    pub temp_path: String,
    /// Binary-interface version the module reported; equals the host's.
    pub api_version: u32,
    /// State-layout hash the module reported; equals the host's
    /// expectation.
    pub schema_hash: u64,
}

/// One step of a teardown, in the order the steps were performed.
#[derive(Debug, Clone, Copy, PartialEq, Eq, Structural)]
pub enum TeardownEvent {
    /// The module's destructor ran on its opaque state.
    StateDropped,
    /// The library handle was released and the temporary copy removed.
    LibraryReleased,
}

/// First half of the load handshake: the candidate's reported
/// binary-interface version must equal the host's — accepted exactly
/// when it does, rejected with both values otherwise. This runs before
/// the factory, so an incompatible module never executes.
pub fn check_api_version(api_version: u32) -> (r: Result<(), LoadError>)
    ensures
        r is Ok <==> api_version == ENGINE_API_VERSION,
        api_version != ENGINE_API_VERSION ==> r == Err::<(), LoadError>(
            LoadError::VersionMismatch { host: ENGINE_API_VERSION, module: api_version },
        ),
{
    if api_version != ENGINE_API_VERSION {
        Err(LoadError::VersionMismatch { host: ENGINE_API_VERSION, module: api_version })
    } else {
        Ok(())
    }
}

/// Second half of the load handshake: the instance's reported
/// state-layout hash must equal the host's expectation — accepted
/// exactly when it does, rejected with both values otherwise. A silently
/// different layout would make a later restore deserialize garbage.
pub fn check_schema_hash(schema_hash: u64, expected_schema_hash: u64) -> (r: Result<
    (),
    LoadError,
>)
    ensures
        r is Ok <==> schema_hash == expected_schema_hash,
        schema_hash != expected_schema_hash ==> r == Err::<(), LoadError>(
            LoadError::SchemaHashMismatch {
                host_hash: expected_schema_hash,
                module_hash: schema_hash,
            },
        ),
{
    if schema_hash != expected_schema_hash {
        Err(
            LoadError::SchemaHashMismatch {
                host_hash: expected_schema_hash,
                module_hash: schema_hash,
            },
        )
    } else {
        Ok(())
    }
}

/// Loads a module through `source`, staging the handshake as the
/// protocol demands: acquire the binary and its reported version, check
/// the version (`check_api_version`) before the factory ever runs, then
/// instantiate and check the reported layout hash (`check_schema_hash`).
/// A candidate that fails a check is torn down again — state first where
/// state exists, then the library — and the check's error is returned.
pub fn load_module<M: Module, S: ModuleSource<M>>(
    source: &mut S,
    expected_schema_hash: u64,
) -> (r: Result<PluginHandle<M>, LoadError>)
    ensures
        r matches Ok(h) ==> h.api_version == ENGINE_API_VERSION && h.schema_hash
            == expected_schema_hash,
        r matches Err(LoadError::VersionMismatch { host, module }) ==> host == ENGINE_API_VERSION
            && module != ENGINE_API_VERSION,
        r matches Err(LoadError::SchemaHashMismatch { host_hash, module_hash }) ==> host_hash
            == expected_schema_hash && module_hash != expected_schema_hash,
{
    let candidate = match source.acquire() {
        Ok(c) => c,
        Err(AcquireError::FileUnavailable(m)) => {
            return Err(LoadError::FileUnavailable(m));
        },
        Err(AcquireError::MissingSymbol(m)) => {
            return Err(LoadError::MissingSymbol(m));
        },
    };
    let ModuleCandidate { api_version, lib, temp_path } = candidate;
    // Version handshake before the factory: an incompatible module's
    // code is never entered beyond its version query.
    if let Err(e) = check_api_version(api_version) {
        source.unload(lib, temp_path);
        return Err(e);
    }
    let instance = match source.instantiate(&lib) {
        Ok(i) => i,
        Err(AcquireError::FileUnavailable(m)) => {
            source.unload(lib, temp_path);
            return Err(LoadError::FileUnavailable(m));
        },
        Err(AcquireError::MissingSymbol(m)) => {
            source.unload(lib, temp_path);
            return Err(LoadError::MissingSymbol(m));
        },
    };
    let ModuleInstance { module, schema_hash } = instance;
    if let Err(e) = check_schema_hash(schema_hash, expected_schema_hash) {
        // The factory has run, so module state exists: destroy it before
        // the library goes.
        let mut rejected = module;
        rejected.drop_state();
        source.unload(lib, temp_path);
        return Err(e);
    }
    Ok(PluginHandle { module, lib, temp_path, api_version, schema_hash })
}

impl<M: Module> PluginHandle<M> {
    /// Tears the module down: first the module's own destructor runs on
    /// its state, only then is the library handle released (and the
    /// temporary copy removed). A call into already unmapped code is
    /// otherwise possible. The returned events record the order the two
    /// steps were performed in.
    pub fn teardown<S: ModuleSource<M>>(self, source: &mut S) -> (events: Vec<TeardownEvent>)
        ensures
            events@ == seq![TeardownEvent::StateDropped, TeardownEvent::LibraryReleased],
    {
        let PluginHandle { module, lib, temp_path, api_version: _, schema_hash: _ } = self;
        let mut events: Vec<TeardownEvent> = Vec::new();
        let mut module = module;
        module.drop_state();
        events.push(TeardownEvent::StateDropped);
        source.unload(lib, temp_path);
        events.push(TeardownEvent::LibraryReleased);
        assert(events@ =~= seq![TeardownEvent::StateDropped, TeardownEvent::LibraryReleased]);
        events
    }
}

/// The decimal digits of `n`, most significant first.
pub open spec fn decimal_digits(n: nat) -> Seq<char>
    decreases n,
{
    if n < 10 {
        seq![digit_char(n as int)]
    } else {
        decimal_digits(n / 10) + seq![digit_char((n % 10) as int)]
    }
}

/// The character for one decimal digit.
pub open spec fn digit_char(d: int) -> char {
    if d == 0 {
        '0'
    } else if d == 1 {
        '1'
    } else if d == 2 {
        '2'
    } else if d == 3 {
        '3'
    } else if d == 4 {
        '4'
    } else if d == 5 {
        '5'
    } else if d == 6 {
        '6'
    } else if d == 7 {
        '7'
    } else if d == 8 {
        '8'
    } else {
        '9'
    }
}

/// The one-character string for a decimal digit.
fn digit_str(d: u64) -> (r: &'static str)
    requires
        d < 10,
    ensures
        r@ == seq![digit_char(d as int)],
{
    if d == 0 {
        proof {
            reveal_strlit("0");
            assert("0"@ =~= seq![digit_char(0)]);
        }
        "0"
    } else if d == 1 {
        proof {
            reveal_strlit("1");
            assert("1"@ =~= seq![digit_char(1)]);
        }
        "1"
    } else if d == 2 {
        proof {
            reveal_strlit("2");
            assert("2"@ =~= seq![digit_char(2)]);
        }
        "2"
    } else if d == 3 {
        proof {
            reveal_strlit("3");
            assert("3"@ =~= seq![digit_char(3)]);
        }
        "3"
    } else if d == 4 {
        proof {
            reveal_strlit("4");
            assert("4"@ =~= seq![digit_char(4)]);
        }
        "4"
    } else if d == 5 {
        proof {
            reveal_strlit("5");
            assert("5"@ =~= seq![digit_char(5)]);
        }
        "5"
    } else if d == 6 {
        proof {
            reveal_strlit("6");
            assert("6"@ =~= seq![digit_char(6)]);
        }
        "6"
    } else if d == 7 {
        proof {
            reveal_strlit("7");
            assert("7"@ =~= seq![digit_char(7)]);
        }
        "7"
    } else if d == 8 {
        proof {
            reveal_strlit("8");
            assert("8"@ =~= seq![digit_char(8)]);
        }
        "8"
    } else {
        proof {
            reveal_strlit("9");
            assert("9"@ =~= seq![digit_char(9)]);
        }
        "9"
    }
}

/// Renders `n` in decimal.
pub fn u64_to_string(n: u64) -> (r: String)
    ensures
        r@ == decimal_digits(n as nat),
    decreases n,
{
    if n < 10 {
        String::from_str(digit_str(n))
    } else {
        let mut s = u64_to_string(n / 10);
        s.append(digit_str(n % 10));
        s
    }
}

/// The uniquely named sibling file the module binary is copied to before
/// it is mapped: the original stem, a timestamp, and the original
/// extension. A fresh name defeats both file locking by a concurrent
/// rebuild and the operating system's cache of an already loaded binary
/// at the same path.
pub fn unique_copy_name(stem: &str, ext: &str, timestamp_ms: u64) -> (r: String)
    ensures
        r@ == stem@ + "_loaded_"@ + decimal_digits(timestamp_ms as nat) + "."@ + ext@,
{
    let mut name = String::from_str(stem);
    name.append("_loaded_");
    let digits = u64_to_string(timestamp_ms);
    name.append(digits.as_str());
    name.append(".");
    name.append(ext);
    proof {
        assert(name@ =~= stem@ + "_loaded_"@ + decimal_digits(timestamp_ms as nat) + "."@ + ext@);
    }
    name
}

} // verus!
