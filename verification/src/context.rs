//! Construction-time probing of the GPU import context.
//!
//! Construction acquires a device node, establishes a display connection,
//! verifies the required extensions, establishes an off-screen rendering
//! context and resolves the import entry points.  The platform calls
//! themselves happen outside; this module holds the decisions: which
//! candidate device to take, whether an extension list names an extension,
//! and which fatal error a given set of probe outcomes produces.

use vstd::prelude::*;

verus! {

/// The ASCII space separating names in an extension list.
pub const EXT_SEPARATOR: u8 = 32;

/// `name` stands at position `i` of the space-separated list `s` as a
/// whole token.
pub open spec fn is_token_at(s: Seq<u8>, name: Seq<u8>, i: int) -> bool {
    &&& 0 <= i
    &&& i + name.len() <= s.len()
    &&& (i == 0 || s[i - 1] == EXT_SEPARATOR)
    &&& (i + name.len() == s.len() || s[i + name.len()] == EXT_SEPARATOR)
    &&& s.subrange(i, i + name.len()) == name
}

/// The space-separated list `s` contains `name` as a whole token.
pub open spec fn contains_token(s: Seq<u8>, name: Seq<u8>) -> bool {
    exists|i: int| is_token_at(s, name, i)
}

/// Whether a space-separated extension list (the bytes of the string the
/// display reports) names the given extension.  A name that merely occurs
/// as a substring of a longer token does not count.
pub fn ext_list_contains(s: &[u8], name: &[u8]) -> (r: bool)
    requires
        name@.len() >= 1,
        forall|k: int| 0 <= k < name@.len() ==> name@[k] != EXT_SEPARATOR,
    ensures
        r == contains_token(s@, name@),
{
    let n = s.len();
    let m = name.len();
    let mut i: usize = 0;
    while i < n
        invariant
            n == s@.len(),
            m == name@.len(),
            m >= 1,
            forall|k: int| 0 <= k < m ==> name@[k] != EXT_SEPARATOR,
            i <= n,
            i == 0 || s@[i - 1] == EXT_SEPARATOR,
            forall|t: int| 0 <= t < i ==> !is_token_at(s@, name@, t),
        decreases n - i,
    {
        // End of the token that starts at i: the first separator at or
        // after i, or the end of the list.
        let mut j: usize = i;
        while j < n && s[j] != EXT_SEPARATOR
            invariant
                n == s@.len(),
                i <= j <= n,
                forall|t: int| i <= t < j ==> s@[t] != EXT_SEPARATOR,
            decreases n - j,
        {
            j = j + 1;
        }
        if j - i == m {
            let mut k: usize = 0;
            let mut all_eq = true;
            while k < m
                invariant
                    n == s@.len(),
                    m == name@.len(),
                    i + m <= n,
                    k <= m,
                    all_eq <==> forall|t: int| 0 <= t < k ==> s@[i + t] == name@[t],
                decreases m - k,
            {
                if s[i + k] != name[k] {
                    all_eq = false;
                }
                k = k + 1;
            }
            if all_eq {
                proof {
                    assert(s@.subrange(i as int, i + m) =~= name@);
                    assert(is_token_at(s@, name@, i as int));
                }
                return true;
            }
        }
        proof {
            // The token [i, j) does not match, and no position inside it
            // starts a token.
            assert forall|t: int| i <= t <= j implies !is_token_at(s@, name@, t) by {
                if t == i {
                    if is_token_at(s@, name@, t) {
                        // name's bytes are separator-free, so the token
                        // running from i must end exactly at i + m.
                        assert(forall|u: int|
                            i <= u < i + m ==> s@[u] == name@[u - i] && s@[u] != EXT_SEPARATOR);
                        assert(j >= i + m);
                        assert(i + m == s@.len() || s@[i + m] == EXT_SEPARATOR);
                        assert(j <= i + m);
                        assert(forall|u: int| 0 <= u < m ==> s@[i + u] == name@[u]);
                        assert(false);
                    }
                } else if t <= j {
                    assert(s@[t - 1] != EXT_SEPARATOR);
                }
            }
        }
        if j == n {
            // The token just examined ran to the end of the list: there is
            // no later token to look at.
            proof {
                assert forall|t: int| !(#[trigger] is_token_at(s@, name@, t)) by {
                    if t > j {
                        assert(t + name@.len() > s@.len());
                    }
                }
            }
            return false;
        }
        i = j + 1;
    }
    proof {
        assert forall|t: int| !(#[trigger] is_token_at(s@, name@, t)) by {
            if 0 <= t < i {
            } else if t >= i {
                assert(t + name@.len() > s@.len());
            }
        }
    }
    false
}

/// Everything fatal at construction time.  Any of these aborts the whole
/// capture session before a frame is produced.
#[derive(Clone, Copy, Debug, PartialEq, Eq, Structural)]
pub enum ConstructError {
    /// No candidate graphics device node opened.
    NoDevice,
    /// The display connection over the chosen device failed.
    DisplayFailed,
    /// The platform-display extension or the buffer-import extension is
    /// absent.
    ExtensionUnavailable,
    /// The off-screen rendering context could not be established.
    ContextFailed,
    /// A required import or destruction entry point did not resolve.
    EntryPointMissing,
    /// The readback library could not be loaded.
    GlLoadFailed,
}

/// What remains capability-negotiable after a successful construction.
#[derive(Clone, Copy, Debug, PartialEq, Eq, Structural)]
pub struct GpuCapabilities {
    /// The optional modifier-enumeration extension is present; without it
    /// the negotiator falls back to the single-element modifier list.
    pub can_enumerate_modifiers: bool,
}

/// The outcomes of every platform probe made while constructing the GPU
/// import context, in the order construction performs them.
#[derive(Clone, Debug)]
pub struct ConstructionProbe {
    /// For each candidate device node, in preference order, whether it
    /// opened.
    pub device_opened: Vec<bool>,
    /// The display connection over the chosen device succeeded.
    pub display_established: bool,
    /// The platform-display extension is present.
    pub has_platform_display_ext: bool,
    /// The buffer-import (device-interop) extension is present.
    pub has_import_ext: bool,
    /// The off-screen rendering context was established.
    pub context_established: bool,
    /// The import and destruction entry points all resolved.
    pub entry_points_resolved: bool,
    /// The readback library loaded.
    pub gl_loaded: bool,
    /// The optional modifier-enumeration extension is present.
    pub has_modifier_enumeration_ext: bool,
}

pub open spec fn some_device_opens(device_opened: Seq<bool>) -> bool {
    exists|i: int| 0 <= i < device_opened.len() && device_opened[i]
}

pub open spec fn evaluate_construction_spec(p: ConstructionProbe) -> Result<
    GpuCapabilities,
    ConstructError,
> {
    if !some_device_opens(p.device_opened@) {
        Err(ConstructError::NoDevice)
    } else if !p.display_established {
        Err(ConstructError::DisplayFailed)
    } else if !(p.has_platform_display_ext && p.has_import_ext) {
        Err(ConstructError::ExtensionUnavailable)
    } else if !p.context_established {
        Err(ConstructError::ContextFailed)
    } else if !p.entry_points_resolved {
        Err(ConstructError::EntryPointMissing)
    } else if !p.gl_loaded {
        Err(ConstructError::GlLoadFailed)
    } else {
        Ok(GpuCapabilities { can_enumerate_modifiers: p.has_modifier_enumeration_ext })
    }
}

/// Construction-failure injection: once construction has a device and a
/// display, a missing required extension — platform-display or buffer
/// import — is fatal with `ExtensionUnavailable`, and no capability
/// record, hence no claim to any resource, is produced.
pub proof fn lemma_extension_absence_is_fatal(p: ConstructionProbe)
    requires
        some_device_opens(p.device_opened@),
        p.display_established,
        !(p.has_platform_display_ext && p.has_import_ext),
    ensures
        evaluate_construction_spec(p) == Err::<GpuCapabilities, ConstructError>(
            ConstructError::ExtensionUnavailable,
        ),
{
}

/// Index of the first candidate device node that opened: a later
/// candidate is taken only when every earlier one failed.
pub fn pick_device(device_opened: &Vec<bool>) -> (r: Option<usize>)
    ensures
        r matches Some(i) ==> i < device_opened@.len() && device_opened@[i as int] && forall|j: int|
            0 <= j < i ==> !device_opened@[j],
        r is None ==> !some_device_opens(device_opened@),
{
    let n = device_opened.len();
    let mut i: usize = 0;
    while i < n
        invariant
            n == device_opened@.len(),
            i <= n,
            forall|j: int| 0 <= j < i ==> !device_opened@[j],
        decreases n - i,
    {
        if device_opened[i] {
            return Some(i);
        }
        i = i + 1;
    }
    None
}

/// Decide the outcome of GPU import context construction from the probe
/// outcomes.  A missing required extension is `ExtensionUnavailable` and
/// fatal: nothing about it is retried, and no capability record — hence no
/// claim to any display or context resource — is handed out.
pub fn evaluate_construction(p: &ConstructionProbe) -> (r: Result<GpuCapabilities, ConstructError>)
    ensures
        r == evaluate_construction_spec(*p),
        some_device_opens(p.device_opened@) && p.display_established && !(
        p.has_platform_display_ext && p.has_import_ext) ==> r == Err::<
            GpuCapabilities,
            ConstructError,
        >(ConstructError::ExtensionUnavailable),
{
    if pick_device(&p.device_opened).is_none() {
        Err(ConstructError::NoDevice)
    } else if !p.display_established {
        Err(ConstructError::DisplayFailed)
    } else if !(p.has_platform_display_ext && p.has_import_ext) {
        Err(ConstructError::ExtensionUnavailable)
    } else if !p.context_established {
        Err(ConstructError::ContextFailed)
    } else if !p.entry_points_resolved {
        Err(ConstructError::EntryPointMissing)
    } else if !p.gl_loaded {
        Err(ConstructError::GlLoadFailed)
    } else {
        Ok(GpuCapabilities { can_enumerate_modifiers: p.has_modifier_enumeration_ext })
    }
}

/// An error carrying a plain message.
#[derive(Debug)]
pub struct StringError {
    error: String,
}

impl StringError {
    /// The carried message, as contracts see it.
    pub closed spec fn message_spec(self) -> Seq<char> {
        self.error@
    }

    pub fn new(error: &str) -> (r: StringError)
        ensures
            r.message_spec() == error@,
    {
        StringError { error: error.to_owned() }
    }

    /// The carried message.
    pub fn message(&self) -> (r: &String)
        ensures
            r@ == self.message_spec(),
    {
        &self.error
    }
}

} // verus!
