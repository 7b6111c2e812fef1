//! The shared browsing context: one per logical profile.
//!
//! A context owns the registry of custom protocol schemes — a scheme
//! registers at most once per context — and the load serializer that
//! arbitrates navigations of all webviews sharing the context. Several
//! webviews may hold one context; the context does not own them.
//!
//! The platform engine owns the profile's actual storage and security
//! configuration; this type decides what that configuration must be
//! (storage directory layout, scheme uniqueness) and what to dispatch.

use vstd::prelude::*;
use crate::error::Error;
use crate::load_serializer::{
    LoadSerializer, LoadRequest, WebviewHandle, SerializerModel, ReqModel, idle_empty,
    flush_state, flush_dispatch, finished_state, finished_dispatch,
};
use crate::uri::Uri;

verus! {

/// Data every context shares regardless of platform.
#[derive(Debug)]
pub struct WebContextData {
    data_directory: Option<String>,
}

impl View for WebContextData {
    type V = Option<Seq<char>>;

    closed spec fn view(&self) -> Option<Seq<char>> {
        self.data_directory.deep_view()
    }
}

impl WebContextData {
    /// The data directory the context was created with, if any.
    pub fn data_directory(&self) -> (r: Option<&String>)
        ensures
            r matches Some(d) ==> self@ == Some(d@),
            r is None ==> self@ is None,
    {
        self.data_directory.as_ref()
    }
}

/// The mathematical value of a [`WebContext`].
pub struct ContextModel {
    /// The profile's data directory, if the profile persists storage.
    pub data_directory: Option<Seq<char>>,
    /// The registered protocol schemes, in registration order.
    pub registered: Seq<Seq<char>>,
    /// The state of the owned load serializer.
    pub loader: SerializerModel,
    /// Whether the context accepts a remote automation session.
    pub automation: bool,
}

/// A context is well formed when no scheme is registered twice.
pub open spec fn registry_wf(m: ContextModel) -> bool {
    forall|i: int, j: int| 0 <= i < j < m.registered.len() ==> m.registered[i] != m.registered[j]
}

/// What registering a scheme does to a context: a scheme already present
/// leaves the context untouched and fails; a new scheme is appended to
/// the registry and succeeds.
pub open spec fn register_step(m: ContextModel, scheme: Seq<char>) -> (ContextModel, bool) {
    if m.registered.contains(scheme) {
        (m, false)
    } else {
        (
            ContextModel {
                data_directory: m.data_directory,
                registered: m.registered.push(scheme),
                loader: m.loader,
                automation: m.automation,
            },
            true,
        )
    }
}

/// Everything of two context values but the serializer state agrees.
pub open spec fn same_but_loader(a: ContextModel, b: ContextModel) -> bool {
    a.data_directory == b.data_directory && a.registered == b.registered && a.automation
        == b.automation
}

/// A context shared between multiple webviews: one browsing-engine
/// profile, its protocol registry, and its load serializer.
#[derive(Debug)]
pub struct WebContext {
    data: WebContextData,
    registered_protocols: Vec<String>,
    load_serializer: LoadSerializer,
    automation: bool,
}

impl View for WebContext {
    type V = ContextModel;

    closed spec fn view(&self) -> ContextModel {
        ContextModel {
            data_directory: self.data@,
            registered: self.registered_protocols.deep_view(),
            loader: self.load_serializer@,
            automation: self.automation,
        }
    }
}

impl WebContext {
    /// Create a context. With a data directory the profile persists
    /// local storage and indexed data under it (see
    /// [`local_storage_directory`] and [`indexed_db_directory`]);
    /// without one the profile is ephemeral. Construction cannot fail,
    /// nothing is registered yet, the serializer is idle, and automation
    /// is off until [`Self::set_allows_automation`] enables it.
    pub fn new(data_directory: Option<String>) -> (ctx: Self)
        ensures
            ctx@.data_directory == data_directory.deep_view(),
            ctx@.registered == Seq::<Seq<char>>::empty(),
            ctx@.loader == idle_empty(),
            ctx@.automation == false,
            registry_wf(ctx@),
    {
        let ctx = WebContext {
            data: WebContextData { data_directory },
            registered_protocols: Vec::new(),
            load_serializer: LoadSerializer::new(),
            automation: false,
        };
        proof {
            assert(ctx@.registered =~= Seq::<Seq<char>>::empty());
        }
        ctx
    }

    /// The data directory the context was created with, if any.
    pub fn data_directory(&self) -> (r: Option<&String>)
        ensures
            r matches Some(d) ==> self@.data_directory == Some(d@),
            r is None ==> self@.data_directory is None,
    {
        self.data.data_directory()
    }

    /// Set whether this context allows a remote automation session. The
    /// flag is recorded here; where the platform supports automation the
    /// embedder forwards it to the engine, elsewhere it is a no-op.
    pub fn set_allows_automation(&mut self, flag: bool)
        ensures
            final(self)@.automation == flag,
            final(self)@.data_directory == old(self)@.data_directory,
            final(self)@.registered == old(self)@.registered,
            final(self)@.loader == old(self)@.loader,
    {
        self.automation = flag;
    }

    /// Whether the context allows automation. The engine accepts only
    /// one automation context at a time.
    pub fn allows_automation(&self) -> (r: bool)
        ensures
            r == self@.automation,
    {
        self.automation
    }

    /// Register a custom protocol scheme with this context.
    ///
    /// Fails with [`Error::DuplicateCustomProtocol`] — without mutating
    /// the registry — exactly when the scheme is already registered on
    /// this context; otherwise the scheme is recorded and the embedder
    /// then installs the handler on the engine and marks the scheme
    /// secure.
    pub fn register_uri_scheme(&mut self, name: &str) -> (r: Result<(), Error>)
        ensures
            final(self)@ == register_step(old(self)@, name@).0,
            (r is Ok) == register_step(old(self)@, name@).1,
            (r is Ok) == !old(self)@.registered.contains(name@),
            r matches Err(e) ==> e matches Error::DuplicateCustomProtocol(s) && s@ == name@,
            registry_wf(old(self)@) ==> registry_wf(final(self)@),
    {
        let scheme = String::from_str(name);
        let found = contains_scheme(&self.registered_protocols, &scheme);
        if found {
            Err(Error::DuplicateCustomProtocol(scheme))
        } else {
            let ghost m0 = self@;
            self.registered_protocols.push(scheme);
            proof {
                assert(self@.registered =~= m0.registered.push(name@));
                if registry_wf(m0) {
                    assert forall|i: int, j: int|
                        0 <= i < j < self@.registered.len() implies self@.registered[i]
                        != self@.registered[j] by {
                        if j == m0.registered.len() {
                            assert(!m0.registered.contains(name@));
                            assert(m0.registered[i] != name@);
                        }
                    }
                }
            }
            Ok(())
        }
    }

    /// Queue a navigation of `webview` to `url`. Always accepted: the
    /// request joins the tail of the serializer's queue and nothing
    /// dispatches until the next flush.
    pub fn queue_load_uri(&mut self, webview: WebviewHandle, url: Uri)
        ensures
            same_but_loader(final(self)@, old(self)@),
            final(self)@.loader.locked == old(self)@.loader.locked,
            final(self)@.loader.queue == old(self)@.loader.queue.push(
                ReqModel { webview: webview.0, uri: url@ },
            ),
    {
        let uri = url.into_string();
        self.load_serializer.push(LoadRequest { webview, uri });
    }

    /// Attempt to drain the next queued navigation, as
    /// [`LoadSerializer::flush`] does. The returned request, if any, is
    /// for the embedder to dispatch to the engine.
    pub fn flush_queue_loader(&mut self) -> (dispatch: Option<LoadRequest>)
        ensures
            same_but_loader(final(self)@, old(self)@),
            final(self)@.loader == flush_state(old(self)@.loader),
            match dispatch {
                Some(req) => flush_dispatch(old(self)@.loader) == Some(req@),
                None => flush_dispatch(old(self)@.loader) is None,
            },
    {
        self.load_serializer.flush()
    }

    /// React to the terminal load event of the active navigation, as
    /// [`LoadSerializer::load_finished`] does.
    pub fn load_finished(&mut self) -> (dispatch: Option<LoadRequest>)
        ensures
            same_but_loader(final(self)@, old(self)@),
            final(self)@.loader == finished_state(old(self)@.loader),
            match dispatch {
                Some(req) => finished_dispatch(old(self)@.loader) == Some(req@),
                None => finished_dispatch(old(self)@.loader) is None,
            },
    {
        self.load_serializer.load_finished()
    }
}

impl Default for WebContext {
    /// An ephemeral context: no data directory.
    fn default() -> (ctx: Self)
        ensures
            ctx@.data_directory is None,
            ctx@.registered == Seq::<Seq<char>>::empty(),
            ctx@.loader == idle_empty(),
            ctx@.automation == false,
    {
        WebContext::new(None)
    }
}

/// Whether a scheme is already among the registered ones.
fn contains_scheme(registered: &Vec<String>, scheme: &String) -> (found: bool)
    ensures
        found == registered.deep_view().contains(scheme@),
{
    let ghost all = registered.deep_view();
    let mut i: usize = 0;
    while i < registered.len()
        invariant
            i <= registered.len(),
            all == registered.deep_view(),
            forall|k: int| 0 <= k < i ==> all[k] != scheme@,
        decreases registered.len() - i,
    {
        let entry: &String = &registered[i];
        if entry.eq(scheme) {
            proof {
                assert(all[i as int] == scheme@);
            }
            return true;
        }
        i += 1;
    }
    proof {
        if all.contains(scheme@) {
            let k = choose|k: int| 0 <= k < all.len() && all[k] == scheme@;
            assert(all[k] != scheme@);
        }
    }
    false
}

/// The directory the profile's local storage lives under: the
/// `localstorage` subdirectory of the data directory.
pub fn local_storage_directory(data_directory: &str) -> (r: String)
    ensures
        r@ == data_directory@ + "/localstorage"@,
{
    let mut dir = String::from_str(data_directory);
    dir.append("/localstorage");
    dir
}

/// The directory the profile's indexed data lives under: the
/// `databases/indexeddb` subdirectory of the data directory.
pub fn indexed_db_directory(data_directory: &str) -> (r: String)
    ensures
        r@ == data_directory@ + "/databases/indexeddb"@,
{
    let mut dir = String::from_str(data_directory);
    dir.append("/databases/indexeddb");
    dir
}

/// Duplicate registration is rejected: registering a fresh scheme on a
/// context succeeds, and registering the same scheme again on the
/// resulting context fails and changes nothing. On a different context
/// that does not know the scheme, the same registration succeeds
/// independently.
pub proof fn lemma_duplicate_protocol_rejected(m: ContextModel, scheme: Seq<char>)
    requires
        !m.registered.contains(scheme),
    ensures
        ({
            let (m1, ok1) = register_step(m, scheme);
            let (m2, ok2) = register_step(m1, scheme);
            ok1 && !ok2 && m2 == m1
        }),
{
    let (m1, ok1) = register_step(m, scheme);
    assert(m1.registered[m1.registered.len() - 1] == scheme);
    assert(m1.registered.contains(scheme));
}

} // verus!
