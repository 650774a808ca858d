//! The proxy that stands in for the system's dinput8 library: the genuine
//! library's path, its export surface, and the one-time resolution of the
//! genuine entry points that every forwarded call goes through.
use vstd::prelude::*;

verus! {

/// The number of entry points the proxy exports.
pub const EXPORT_COUNT: usize = 5;

/// The entry points of the genuine library that the proxy exports too.
#[derive(Clone, Copy, Debug, PartialEq, Eq, Structural)]
pub enum Export {
    DirectInput8Create,
    DllCanUnloadNow,
    DllGetClassObject,
    DllRegisterServer,
    DllUnregisterServer,
}

impl Export {
    /// The entry point's place in the export table.
    pub open spec fn slot(self) -> int {
        match self {
            Export::DirectInput8Create => 0,
            Export::DllCanUnloadNow => 1,
            Export::DllGetClassObject => 2,
            Export::DllRegisterServer => 3,
            Export::DllUnregisterServer => 4,
        }
    }

    pub open spec fn spec_name(self) -> Seq<char> {
        match self {
            Export::DirectInput8Create => "DirectInput8Create"@,
            Export::DllCanUnloadNow => "DllCanUnloadNow"@,
            Export::DllGetClassObject => "DllGetClassObject"@,
            Export::DllRegisterServer => "DllRegisterServer"@,
            Export::DllUnregisterServer => "DllUnregisterServer"@,
        }
    }

    pub fn index(&self) -> (r: usize)
        ensures
            r == self.slot(),
            r < EXPORT_COUNT,
    {
        match self {
            Export::DirectInput8Create => 0,
            Export::DllCanUnloadNow => 1,
            Export::DllGetClassObject => 2,
            Export::DllRegisterServer => 3,
            Export::DllUnregisterServer => 4,
        }
    }

    /// The symbol name under which the genuine library exports it.
    pub fn name(&self) -> (r: &'static str)
        ensures
            r@ == self.spec_name(),
    {
        match self {
            Export::DirectInput8Create => "DirectInput8Create",
            Export::DllCanUnloadNow => "DllCanUnloadNow",
            Export::DllGetClassObject => "DllGetClassObject",
            Export::DllRegisterServer => "DllRegisterServer",
            Export::DllUnregisterServer => "DllUnregisterServer",
        }
    }

    /// Every entry point, each in its own slot.
    pub fn all() -> (r: Vec<Export>)
        ensures
            r@.len() == EXPORT_COUNT,
            forall|i: int| 0 <= i < EXPORT_COUNT ==> (#[trigger] r@[i]).slot() == i,
    {
        vec![
            Export::DirectInput8Create,
            Export::DllCanUnloadNow,
            Export::DllGetClassObject,
            Export::DllRegisterServer,
            Export::DllUnregisterServer,
        ]
    }
}

/// Whether a lookup result names an address for every slot.
pub open spec fn all_resolved(found: Seq<usize>) -> bool {
    found.len() == EXPORT_COUNT && forall|i: int| 0 <= i < found.len() ==> #[trigger] found[i] != 0
}

/// The first slot whose lookup came back null, from slot `i` on.
pub open spec fn first_missing_from(found: Seq<usize>, i: int) -> int
    decreases found.len() - i,
{
    if i < 0 || i >= found.len() {
        found.len() as int
    } else if found[i] == 0 {
        i
    } else {
        first_missing_from(found, i + 1)
    }
}

/// Why the genuine library could not be wrapped.
#[derive(Clone, Copy, Debug, PartialEq, Eq, Structural)]
pub enum ProxyError {
    /// The lookups were not one per entry point.
    WrongCount,
    /// The genuine library does not export the entry point in this slot.
    MissingSymbol(usize),
}

/// How a call into the proxy proceeds.
#[derive(Clone, Copy, Debug, PartialEq, Eq, Structural)]
pub enum Route {
    /// Nothing is resolved yet: patch, load the genuine library and resolve first.
    Initialize,
    /// Call the genuine entry point at this address.
    Forward(usize),
}

/// The resolved entry points of the genuine library, one non-null address per slot.
pub struct ExportTable {
    addresses: Vec<usize>,
}

impl View for ExportTable {
    type V = Seq<usize>;

    closed spec fn view(&self) -> Seq<usize> {
        self.addresses@
    }
}

impl ExportTable {
    pub open spec fn wf(&self) -> bool {
        all_resolved(self@)
    }

    /// The table of the addresses found for each slot; an error naming the
    /// first slot found null.
    pub fn from_lookups(found: &Vec<usize>) -> (r: Result<ExportTable, ProxyError>)
        ensures
            found@.len() != EXPORT_COUNT ==> r == Err::<ExportTable, ProxyError>(
                ProxyError::WrongCount,
            ),
            found@.len() == EXPORT_COUNT ==> (r is Ok <==> all_resolved(found@)),
            r is Ok ==> r.unwrap()@ == found@ && r.unwrap().wf(),
            found@.len() == EXPORT_COUNT && !all_resolved(found@) ==> r == Err::<
                ExportTable,
                ProxyError,
            >(ProxyError::MissingSymbol(first_missing_from(found@, 0) as usize)),
    {
        if found.len() != EXPORT_COUNT {
            return Err(ProxyError::WrongCount);
        }
        let mut i: usize = 0;
        while i < found.len()
            invariant
                found@.len() == EXPORT_COUNT,
                i <= found@.len(),
                forall|k: int| 0 <= k < i ==> found@[k] != 0,
                first_missing_from(found@, 0) == first_missing_from(found@, i as int),
            decreases found@.len() - i,
        {
            if found[i] == 0 {
                return Err(ProxyError::MissingSymbol(i));
            }
            i += 1;
        }
        Ok(ExportTable { addresses: found.clone() })
    }

    /// The genuine address of an entry point.
    pub fn address(&self, e: Export) -> (r: usize)
        requires
            self.wf(),
        ensures
            r == self@[e.slot()],
            r != 0,
    {
        self.addresses[e.index()]
    }
}

/// The proxy's state: nothing resolved yet, or the genuine entry points,
/// resolved once and kept for the life of the process.
pub struct ForwardingProxy {
    exports: Option<ExportTable>,
}

impl View for ForwardingProxy {
    type V = Option<Seq<usize>>;

    closed spec fn view(&self) -> Option<Seq<usize>> {
        match self.exports {
            Some(t) => Some(t@),
            None => None,
        }
    }
}

impl ForwardingProxy {
    pub closed spec fn wf(&self) -> bool {
        match self.exports {
            Some(t) => t.wf(),
            None => true,
        }
    }

    pub fn new() -> (r: ForwardingProxy)
        ensures
            r@ is None,
            r.wf(),
    {
        ForwardingProxy { exports: None }
    }

    pub fn is_ready(&self) -> (r: bool)
        ensures
            r == self@ is Some,
    {
        self.exports.is_some()
    }

    /// Records what looking up each entry point in the genuine library gave
    /// (0 for null). Once resolved, the proxy keeps its table and ignores
    /// later lookups; a lookup that came back null leaves it unresolved.
    pub fn initialize(&mut self, found: &Vec<usize>) -> (r: Result<(), ProxyError>)
        requires
            old(self).wf(),
        ensures
            final(self).wf(),
            old(self)@ is Some ==> r is Ok && final(self)@ == old(self)@,
            old(self)@ is None ==> (r is Ok <==> all_resolved(found@)),
            old(self)@ is None && r is Ok ==> final(self)@ == Some(found@),
            r is Err ==> final(self)@ is None,
            old(self)@ is None && found@.len() == EXPORT_COUNT && !all_resolved(found@) ==> r
                == Err::<(), ProxyError>(
                ProxyError::MissingSymbol(first_missing_from(found@, 0) as usize),
            ),
            old(self)@ is None && found@.len() != EXPORT_COUNT ==> r == Err::<(), ProxyError>(
                ProxyError::WrongCount,
            ),
    {
        if self.exports.is_some() {
            return Ok(());
        }
        match ExportTable::from_lookups(found) {
            Ok(t) => {
                self.exports = Some(t);
                Ok(())
            },
            Err(e) => Err(e),
        }
    }

    /// Where a call to `e` goes: to initialisation while nothing is resolved,
    /// then always to the genuine entry point, never to a null address.
    pub fn route(&self, e: Export) -> (r: Route)
        requires
            self.wf(),
        ensures
            self@ is None ==> r == Route::Initialize,
            self@ is Some ==> r == Route::Forward(self@.unwrap()[e.slot()]),
            r matches Route::Forward(a) ==> a != 0,
    {
        match &self.exports {
            Some(t) => Route::Forward(t.address(e)),
            None => Route::Initialize,
        }
    }
}

/// Once the proxy is resolved, every entry point resolves to a non-null
/// address; a resolution that found a null address leaves the proxy
/// unresolved, so no call is forwarded through it.
pub proof fn lemma_resolved_entry_points_non_null(p: ForwardingProxy, e: Export)
    requires
        p.wf(),
        p@ is Some,
    ensures
        p@.unwrap()[e.slot()] != 0,
{
    assert(0 <= e.slot() < EXPORT_COUNT);
}

/// The UTF-16 text that follows the system directory: `\dinput8.dll` and a nul.
pub open spec fn dll_suffix() -> Seq<u16> {
    seq![92u16, 100, 105, 110, 112, 117, 116, 56, 46, 100, 108, 108, 0]
}

/// `s` up to its first nul.
pub open spec fn until_nul(s: Seq<u16>) -> Seq<u16>
    decreases s.len(),
{
    if s.len() == 0 {
        s
    } else if s[0] == 0 {
        Seq::empty()
    } else {
        seq![s[0]] + until_nul(s.drop_first())
    }
}

/// Relies on widestring's `U16CString::from_vec_truncate`, which keeps the
/// values up to the first nul and ends them with one, and on
/// `into_vec_with_nul`, which hands those values back.
#[verifier::external_body]
fn nul_terminated(v: Vec<u16>) -> (r: Vec<u16>)
    ensures
        r@ == until_nul(v@).push(0),
{
    widestring::U16CString::from_vec_truncate(v).into_vec_with_nul()
}

/// The nul-terminated path of the genuine library: the first `len` values
/// of `system_dir` (the system directory), then `\dinput8.dll`, cut at the
/// first nul.
pub fn genuine_library_path(system_dir: &Vec<u16>, len: usize) -> (r: Vec<u16>)
    requires
        len <= system_dir@.len(),
    ensures
        r@ == until_nul(system_dir@.subrange(0, len as int) + dll_suffix()).push(0),
{
    let suffix: Vec<u16> = vec![92u16, 100, 105, 110, 112, 117, 116, 56, 46, 100, 108, 108, 0];
    let mut joined: Vec<u16> = Vec::new();
    let mut i: usize = 0;
    while i < len
        invariant
            len <= system_dir@.len(),
            i <= len,
            joined@ == system_dir@.subrange(0, i as int),
        decreases len - i,
    {
        joined.push(system_dir[i]);
        i += 1;
        assert(joined@ =~= system_dir@.subrange(0, i as int));
    }
    let mut j: usize = 0;
    while j < suffix.len()
        invariant
            suffix@ == dll_suffix(),
            j <= suffix@.len(),
            joined@ == system_dir@.subrange(0, len as int) + suffix@.subrange(0, j as int),
        decreases suffix@.len() - j,
    {
        joined.push(suffix[j]);
        j += 1;
        assert(joined@ =~= system_dir@.subrange(0, len as int) + suffix@.subrange(0, j as int));
    }
    assert(suffix@.subrange(0, suffix@.len() as int) =~= suffix@);
    nul_terminated(joined)
}

} // verus!
