//! Assets over the web channel: the URLs the host hands out, how a request
//! path is routed back to an asset, the caches of served and received
//! assets, and how much of a download is read.
use vstd::prelude::*;
use std::collections::HashMap;
use crate::ids::{is_hyphen_position, parse_uuid, uuid_parsed, uuid_text, uuid_to_text, lemma_uuid_text_chars};
use crate::maps::{keys_of_u128_map, lemma_push_to_set};
use crate::proto::{copy_bytes, Message, MessageView, SyncAssetType};
use crate::text::{contains_piece, contains_str, has_prefix, starts_with};
use crate::tracker::{skip_outcome, SyncTrackerRes, TrackerView};

verus! {

broadcast use vstd::std_specs::hash::group_hash_axioms;

/// The decimal digit character of `d` (`0 <= d < 10`).
pub open spec fn digit_char(d: nat) -> char {
    ((d + 48) as u32) as char
}

/// The decimal text of `n`, without sign or leading zeros.
pub open spec fn decimal(n: nat) -> Seq<char>
    decreases n,
{
    if n < 10 {
        seq![digit_char(n)]
    } else {
        decimal(n / 10).push(digit_char(n % 10))
    }
}

/// Whether every character of `s` is a decimal digit.
pub open spec fn all_digits(s: Seq<char>) -> bool {
    forall|i: int| 0 <= i < s.len() ==> '0' <= #[trigger] s[i] && s[i] <= '9'
}

/// The number the decimal digits `s` write, most significant first.
pub open spec fn digits_value(s: Seq<char>) -> nat
    decreases s.len(),
{
    if s.len() == 0 {
        0
    } else {
        10 * digits_value(s.drop_last()) + ((s.last() as int - 48) as nat)
    }
}

/// What `str::parse::<usize>` reads from a text: an optional `+` followed by
/// at least one decimal digit and nothing else, whose value fits in a
/// `usize`.
pub open spec fn usize_text_value(s: Seq<char>) -> Option<usize> {
    let d = if s.len() > 0 && s[0] == '+' {
        s.drop_first()
    } else {
        s
    };
    if d.len() > 0 && all_digits(d) && digits_value(d) <= usize::MAX {
        Some(digits_value(d) as usize)
    } else {
        None
    }
}

/// The decimal text of a number is digits only, and reads back as the number.
pub proof fn lemma_decimal_digits(n: nat)
    ensures
        decimal(n).len() > 0,
        all_digits(decimal(n)),
        decimal(n)[0] != '+',
        digits_value(decimal(n)) == n,
    decreases n,
{
    if n >= 10 {
        lemma_decimal_digits(n / 10);
        let d = decimal(n);
        assert(d.drop_last() =~= decimal(n / 10));
        assert(d[0] == decimal(n / 10)[0]);
        assert(d.last() == digit_char(n % 10));
        assert(digit_char(n % 10) as int == n % 10 + 48);
        assert(digits_value(d) == 10 * digits_value(decimal(n / 10)) + n % 10);
        assert(n == 10 * (n / 10) + n % 10);
    } else {
        let d = decimal(n);
        assert(d.drop_last() =~= Seq::<char>::empty());
        assert(digits_value(d.drop_last()) == 0);
        assert(digit_char(n) as int == n + 48);
    }
}

/// The decimal text of a `usize`, from its `Display`, which std documents
/// as decimal.
#[verifier::external_body]
fn usize_to_text(n: usize) -> (s: String)
    ensures
        s@ == decimal(n as nat),
{
    n.to_string()
}

/// The decimal text of a `u16`, from its `Display`.
#[verifier::external_body]
fn u16_to_text(n: u16) -> (s: String)
    ensures
        s@ == decimal(n as nat),
{
    n.to_string()
}

/// `str::parse::<usize>`: std documents that it reads an optional `+`
/// followed by decimal digits only, and fails on any other text and on a
/// value too large for the type.
#[verifier::external_body]
fn parse_usize(s: &str) -> (r: Option<usize>)
    ensures
        r == usize_text_value(s@),
{
    s.parse::<usize>().ok()
}

/// The path segment of an asset kind.
pub open spec fn asset_segment(kind: SyncAssetType) -> Seq<char> {
    match kind {
        SyncAssetType::Mesh => "mesh"@,
        SyncAssetType::Image => "image"@,
        SyncAssetType::Audio => "audio"@,
    }
}

/// The path under which the host serves asset `id` of kind `kind`.
pub open spec fn asset_path(kind: SyncAssetType, id: u128) -> Seq<char> {
    "/"@ + asset_segment(kind) + "/"@ + uuid_text(id)
}

/// The base URL of the asset web server at address text `ip` and `port`;
/// an IPv6 address stands in brackets.
pub open spec fn base_url_text(ip: Seq<char>, is_ipv6: bool, port: u16) -> Seq<char> {
    if is_ipv6 {
        "http://["@ + ip + "]:"@ + decimal(port as nat)
    } else {
        "http://"@ + ip + ":"@ + decimal(port as nat)
    }
}

/// Where a request path leads: the kind and id of the asset it asks for.
/// The image, mesh and audio paths are told apart in that order by the
/// piece they contain, and the path must then begin with that piece.
pub open spec fn route_of(path: Seq<char>) -> Option<(SyncAssetType, u128)> {
    if contains_piece(path, "/image/"@) {
        if has_prefix(path, "/image/"@) {
            match uuid_parsed(path.subrange(7, path.len() as int)) {
                Some(id) => Some((SyncAssetType::Image, id)),
                None => None,
            }
        } else {
            None
        }
    } else if contains_piece(path, "/mesh/"@) {
        if has_prefix(path, "/mesh/"@) {
            match uuid_parsed(path.subrange(6, path.len() as int)) {
                Some(id) => Some((SyncAssetType::Mesh, id)),
                None => None,
            }
        } else {
            None
        }
    } else if contains_piece(path, "/audio/"@) {
        if has_prefix(path, "/audio/"@) {
            match uuid_parsed(path.subrange(7, path.len() as int)) {
                Some(id) => Some((SyncAssetType::Audio, id)),
                None => None,
            }
        } else {
            None
        }
    } else {
        None
    }
}


proof fn lemma_no_piece(s: Seq<char>, pat: Seq<char>)
    requires
        pat.len() >= 2,
        forall|i: int|
            0 <= i && i + pat.len() <= s.len() ==> (s[i] != pat[0] || s[i + 1] != pat[1] || #[trigger] s[i + pat.len() - 1] != pat[pat.len() - 1]),
    ensures
        !contains_piece(s, pat),
{
    assert forall|i: int| 0 <= i && i + pat.len() <= s.len() implies !(#[trigger] s.subrange(i, i + pat.len()) =~= pat) by {
        let w = s.subrange(i, i + pat.len());
        assert(w[0] == s[i]);
        assert(w[1] == s[i + 1]);
        assert(w[pat.len() - 1] == s[i + pat.len() - 1]);
    }
}

proof fn lemma_piece_at_start(s: Seq<char>, pat: Seq<char>)
    requires
        has_prefix(s, pat),
    ensures
        contains_piece(s, pat),
{
    assert(s.subrange(0, 0 + pat.len() as int) =~= pat);
}

/// The shape of a served asset path: which route pieces it holds and where
/// its id text starts.
proof fn lemma_asset_path_shape(kind: SyncAssetType, id: u128)
    ensures
        ({
            let p = asset_path(kind, id);
            match kind {
                SyncAssetType::Image => contains_piece(p, "/image/"@) && has_prefix(p, "/image/"@)
                    && p.subrange(7, p.len() as int) == uuid_text(id),
                SyncAssetType::Mesh => !contains_piece(p, "/image/"@) && contains_piece(p, "/mesh/"@)
                    && has_prefix(p, "/mesh/"@) && p.subrange(6, p.len() as int) == uuid_text(id),
                SyncAssetType::Audio => !contains_piece(p, "/image/"@) && !contains_piece(p, "/mesh/"@)
                    && contains_piece(p, "/audio/"@) && has_prefix(p, "/audio/"@)
                    && p.subrange(7, p.len() as int) == uuid_text(id),
            }
        }),
{
    reveal_strlit("/image/");
    reveal_strlit("/mesh/");
    reveal_strlit("/audio/");
    reveal_strlit("/");
    reveal_strlit("mesh");
    reveal_strlit("image");
    reveal_strlit("audio");
    let t = uuid_text(id);
    lemma_uuid_text_chars(id);
    let p = asset_path(kind, id);
    let k: int = asset_segment(kind).len() as int + 2;
    assert(p =~= "/"@ + asset_segment(kind) + "/"@ + t);
    assert(forall|j: int| 0 <= j < 36 ==> p[k + j] == #[trigger] t[j]);
    assert forall|j: int| 0 <= j < 36 implies #[trigger] t[j] != '/' by {
        let c = t[j];
        assert((is_hyphen_position(j) && c == '-') || (!is_hyphen_position(j) && (('0' <= c && c <= '9') || ('a' <= c && c <= 'f'))));
    }
    match kind {
        SyncAssetType::Image => {
            assert(p.subrange(0, 7) =~= "/image/"@);
            lemma_piece_at_start(p, "/image/"@);
            assert(p.subrange(7, p.len() as int) =~= t);
        },
        SyncAssetType::Mesh => {
            assert(p.subrange(0, 6) =~= "/mesh/"@);
            lemma_piece_at_start(p, "/mesh/"@);
            assert(p.subrange(6, p.len() as int) =~= t);
            assert forall|i: int| 0 <= i && i + 7 <= p.len() implies (p[i] != "/image/"@[0] || p[i + 1] != "/image/"@[1]
                || #[trigger] p[i + 7 - 1] != "/image/"@[6]) by {
                if i == 0 {
                    assert(p[6] == t[0]);
                } else if i == 5 {
                    assert(p[11] == t[5]);
                } else if i >= 6 {
                    assert(p[i] == t[i - 6]);
                }
            }
            lemma_no_piece(p, "/image/"@);
        },
        SyncAssetType::Audio => {
            assert(p.subrange(0, 7) =~= "/audio/"@);
            lemma_piece_at_start(p, "/audio/"@);
            assert(p.subrange(7, p.len() as int) =~= t);
            assert forall|i: int| 0 <= i && i + 7 <= p.len() implies (p[i] != "/image/"@[0] || p[i + 1] != "/image/"@[1]
                || #[trigger] p[i + 7 - 1] != "/image/"@[6]) by {
                if i == 6 {
                    assert(p[12] == t[5]);
                } else if i >= 7 {
                    assert(p[i] == t[i - 7]);
                }
            }
            lemma_no_piece(p, "/image/"@);
            assert forall|i: int| 0 <= i && i + 6 <= p.len() implies (p[i] != "/mesh/"@[0] || p[i + 1] != "/mesh/"@[1]
                || #[trigger] p[i + 6 - 1] != "/mesh/"@[5]) by {
                if i == 6 {
                    assert(p[11] == t[4]);
                } else if i >= 7 {
                    assert(p[i] == t[i - 7]);
                }
            }
            lemma_no_piece(p, "/mesh/"@);
        },
    }
}

/// The base URL of the asset web server.
pub fn base_url(ip: &str, is_ipv6: bool, port: u16) -> (r: String)
    ensures
        r@ == base_url_text(ip@, is_ipv6, port),
{
    let port_text = u16_to_text(port);
    if is_ipv6 {
        let mut r = "http://[".to_owned();
        r.append(ip);
        r.append("]:");
        r.append(port_text.as_str());
        r
    } else {
        let mut r = "http://".to_owned();
        r.append(ip);
        r.append(":");
        r.append(port_text.as_str());
        r
    }
}

fn asset_segment_str(kind: SyncAssetType) -> (r: &'static str)
    ensures
        r@ == asset_segment(kind),
{
    match kind {
        SyncAssetType::Mesh => "mesh",
        SyncAssetType::Image => "image",
        SyncAssetType::Audio => "audio",
    }
}

/// The URL under which the host serves asset `id` of kind `kind`.
pub fn asset_url(base: &str, kind: SyncAssetType, id: u128) -> (r: String)
    ensures
        r@ == base@ + asset_path(kind, id),
{
    let mut r = base.to_owned();
    r.append("/");
    r.append(asset_segment_str(kind));
    r.append("/");
    let text = uuid_to_text(id);
    r.append(text.as_str());
    proof {
        assert(r@ =~= base@ + asset_path(kind, id));
    }
    r
}

/// The kind and id of the asset a request path asks for.
pub fn route_request(path: &str) -> (r: Option<(SyncAssetType, u128)>)
    ensures
        r == route_of(path@),
        forall|kind: SyncAssetType, id: u128| path@ == #[trigger] asset_path(kind, id) ==> r == Some((kind, id)),
{
    proof {
        reveal_strlit("/image/");
        reveal_strlit("/mesh/");
        reveal_strlit("/audio/");
    }
    let n = path.unicode_len();
    let r = if contains_str(path, "/image/") {
        if !starts_with(path, "/image/") {
            None
        } else {
            let rest = path.substring_char(7, n);
            match parse_uuid(rest) {
                Some(id) => Some((SyncAssetType::Image, id)),
                None => None,
            }
        }
    } else if contains_str(path, "/mesh/") {
        if !starts_with(path, "/mesh/") {
            None
        } else {
            let rest = path.substring_char(6, n);
            match parse_uuid(rest) {
                Some(id) => Some((SyncAssetType::Mesh, id)),
                None => None,
            }
        }
    } else if contains_str(path, "/audio/") {
        if !starts_with(path, "/audio/") {
            None
        } else {
            let rest = path.substring_char(7, n);
            match parse_uuid(rest) {
                Some(id) => Some((SyncAssetType::Audio, id)),
                None => None,
            }
        }
    } else {
        None
    };
    proof {
        assert forall|kind: SyncAssetType, id: u128| path@ == #[trigger] asset_path(kind, id) implies r == Some((kind, id)) by {
            lemma_asset_path_shape(kind, id);
        }
    }
    r
}

/// How many bytes of a download are read: the announced length when the
/// header holds one, else the largest transfer.
pub open spec fn download_limit_of(header: Option<Seq<char>>, max_transfer: usize) -> usize {
    match header {
        Some(h) => match usize_text_value(h) {
            Some(n) => n,
            None => max_transfer,
        },
        None => max_transfer,
    }
}

/// How many bytes of a download are read, given its length header.
pub fn download_limit(header: Option<&str>, max_transfer: usize) -> (r: usize)
    ensures
        r == download_limit_of(
            match header {
                Some(h) => Some(h@),
                None => None,
            },
            max_transfer,
        ),
        forall|n: usize| (header matches Some(h) && h@ == #[trigger] decimal(n as nat)) ==> r == n,
{
    proof {
        assert forall|n: usize| (header matches Some(h) && h@ == #[trigger] decimal(n as nat)) implies usize_text_value(
            header->Some_0@,
        ) == Some(n) by {
            lemma_decimal_digits(n as nat);
        }
    }
    match header {
        Some(h) => match parse_usize(h) {
            Some(n) => n,
            None => max_transfer,
        },
        None => max_transfer,
    }
}

/// A cache of assets as bytes, by id.
pub struct AssetStore {
    entries: HashMap<u128, Vec<u8>>,
}

/// The answer to a request for a cached asset.
pub enum AssetAnswer {
    /// The asset is not cached.
    NotFound,
    /// The asset's bytes, and the text of their length for the length header.
    Found { data: Vec<u8>, content_length: String },
}

impl View for AssetStore {
    type V = Map<u128, Vec<u8>>;

    closed spec fn view(&self) -> Map<u128, Vec<u8>> {
        self.entries@
    }
}

impl AssetStore {
    /// An empty cache.
    pub fn new() -> (r: AssetStore)
        ensures
            r@ == Map::<u128, Vec<u8>>::empty(),
    {
        let r = AssetStore { entries: HashMap::new() };
        assert(r@ =~= Map::<u128, Vec<u8>>::empty());
        r
    }

    /// Whether asset `id` is cached.
    pub fn contains(&self, id: u128) -> (r: bool)
        ensures
            r == self@.contains_key(id),
    {
        self.entries.contains_key(&id)
    }

    /// Caches `data` as asset `id`, replacing what was there.
    pub fn insert(&mut self, id: u128, data: Vec<u8>)
        ensures
            final(self)@ == old(self)@.insert(id, data),
    {
        self.entries.insert(id, data);
        proof {
            assert(final(self)@ =~= old(self)@.insert(id, data));
        }
    }

    /// Caches `data` as asset `id` unless it is cached already; what was
    /// cached first is what is served.
    pub fn serve(&mut self, id: u128, data: Vec<u8>)
        ensures
            old(self)@.contains_key(id) ==> final(self)@ == old(self)@,
            !old(self)@.contains_key(id) ==> final(self)@ == old(self)@.insert(id, data),
    {
        if !self.entries.contains_key(&id) {
            self.insert(id, data);
        }
    }

    /// The answer to a request for asset `id`.
    pub fn answer(&self, id: u128) -> (r: AssetAnswer)
        ensures
            !self@.contains_key(id) ==> r is NotFound,
            self@.contains_key(id) ==> (r matches AssetAnswer::Found { data, content_length } && data@
                == self@[id]@ && content_length@ == decimal(data@.len())),
    {
        match self.entries.get(&id) {
            None => AssetAnswer::NotFound,
            Some(v) => {
                let data = copy_bytes(v);
                let content_length = usize_to_text(data.len());
                AssetAnswer::Found { data, content_length }
            },
        }
    }

    /// Empties the cache and returns what it held, each asset once.
    pub fn take_all(&mut self) -> (r: Vec<(u128, Vec<u8>)>)
        ensures
            final(self)@ == Map::<u128, Vec<u8>>::empty(),
            r@.map_values(|e: (u128, Vec<u8>)| e.0).no_duplicates(),
            r@.map_values(|e: (u128, Vec<u8>)| e.0).to_set() == old(self)@.dom(),
            forall|i: int| 0 <= i < r@.len() ==> (#[trigger] r@[i]).1 == old(self)@[r@[i].0],
    {
        let keys = keys_of_u128_map(&self.entries);
        let ghost start = self@;
        let mut r: Vec<(u128, Vec<u8>)> = Vec::new();
        let mut i: usize = 0;
        while i < keys.len()
            invariant
                i <= keys@.len(),
                keys@.to_set() == start.dom(),
                keys@.no_duplicates(),
                r@.map_values(|e: (u128, Vec<u8>)| e.0) == keys@.subrange(0, i as int),
                forall|j: int| 0 <= j < r@.len() ==> (#[trigger] r@[j]).1 == start[r@[j].0],
                self@ == start.remove_keys(keys@.subrange(0, i as int).to_set()),
            decreases keys.len() - i,
        {
            let id = keys[i];
            assert(keys@.to_set().contains(id));
            assert(!keys@.subrange(0, i as int).contains(id)) by {
                if keys@.subrange(0, i as int).contains(id) {
                    let j = choose|j: int| 0 <= j < i && #[trigger] keys@.subrange(0, i as int)[j] == id;
                    assert(keys@[j] == keys@[i as int]);
                }
            }
            assert(self@.contains_key(id));
            let data = self.entries.remove(&id).unwrap();
            let ghost prev = r@;
            assert(data == start[id]);
            r.push((id, data));
            proof {
                assert(r@.map_values(|e: (u128, Vec<u8>)| e.0) =~= prev.map_values(|e: (u128, Vec<u8>)| e.0).push(id));
                assert(keys@.subrange(0, i + 1) =~= keys@.subrange(0, i as int).push(id));
                lemma_push_to_set(keys@.subrange(0, i as int), id);
                assert(self@ =~= start.remove_keys(keys@.subrange(0, i + 1).to_set()));
            }
            i = i + 1;
        }
        proof {
            assert(keys@.subrange(0, i as int) =~= keys@);
            assert(self@ =~= Map::<u128, Vec<u8>>::empty());
        }
        r
    }
}

/// The message announcing that asset `id` of kind `kind` is served at `url`.
pub open spec fn asset_message(kind: SyncAssetType, id: u128, url: Seq<char>) -> MessageView {
    match kind {
        SyncAssetType::Mesh => MessageView::MeshUpdated { id, url },
        SyncAssetType::Image => MessageView::ImageUpdated { id, url },
        SyncAssetType::Audio => MessageView::AudioUpdated { id, url },
    }
}

/// What the cache of served assets holds after offering `bin` as asset
/// `id`: the first bytes offered for an id stay; no bytes leave it as it is.
pub open spec fn served_after(store: Map<u128, Vec<u8>>, id: u128, bin: Option<Vec<u8>>) -> Map<u128, Vec<u8>> {
    match bin {
        Some(b) => if store.contains_key(id) {
            store
        } else {
            store.insert(id, b)
        },
        None => store,
    }
}

/// Serves a local asset that changed: unless the change is the echo of an
/// asset that came from the network, its bytes `bin` (none when they could
/// not be made) are offered to the cache `store` of its kind, and the
/// message announcing its URL under `base` is returned.
pub fn serve_changed_asset<P>(
    track: &mut SyncTrackerRes<P>,
    store: &mut AssetStore,
    base: &str,
    kind: SyncAssetType,
    id: u128,
    bin: Option<Vec<u8>>,
) -> (r: Option<Message>)
    requires
        old(track).wf(),
    ensures
        final(track).wf(),
        final(track)@ == skip_outcome(old(track)@, id).1,
        skip_outcome(old(track)@, id).0 ==> r is None && final(store)@ == old(store)@,
        !skip_outcome(old(track)@, id).0 ==> {
            &&& r matches Some(m)
            &&& m@ == asset_message(kind, id, base@ + asset_path(kind, id))
            &&& final(store)@ == served_after(old(store)@, id, bin)
        },
{
    if track.skip_network_handle_change(id) {
        return None;
    }
    if let Some(b) = bin {
        store.serve(id, b);
    }
    let url = asset_url(base, kind, id);
    let m = match kind {
        SyncAssetType::Mesh => Message::MeshUpdated { id, url },
        SyncAssetType::Image => Message::ImageUpdated { id, url },
        SyncAssetType::Audio => Message::AudioUpdated { id, url },
    };
    Some(m)
}

/// Whether an announced asset is downloaded: not when the host serves it
/// already from its own mesh cache.
pub fn should_download(served_meshes: &AssetStore, id: u128) -> (r: bool)
    ensures
        r == !served_meshes@.contains_key(id),
{
    !served_meshes.contains(id)
}

/// Takes the downloaded assets waiting to be applied, remembering each as
/// coming from the network so that applying it is not sent back.
pub fn take_received<P>(pending: &mut AssetStore, track: &mut SyncTrackerRes<P>) -> (r: Vec<(u128, Vec<u8>)>)
    requires
        old(track).wf(),
    ensures
        final(track).wf(),
        final(pending)@ == Map::<u128, Vec<u8>>::empty(),
        r@.map_values(|e: (u128, Vec<u8>)| e.0).no_duplicates(),
        r@.map_values(|e: (u128, Vec<u8>)| e.0).to_set() == old(pending)@.dom(),
        forall|i: int| 0 <= i < r@.len() ==> (#[trigger] r@[i]).1 == old(pending)@[r@[i].0],
        final(track)@ == (TrackerView {
            pushed_handles: old(track)@.pushed_handles.union(old(pending)@.dom()),
            ..old(track)@
        }),
{
    let r = pending.take_all();
    let ghost ids = r@.map_values(|e: (u128, Vec<u8>)| e.0);
    assert(old(track)@.pushed_handles.union(ids.subrange(0, 0).to_set()) =~= old(track)@.pushed_handles);
    let mut i: usize = 0;
    while i < r.len()
        invariant
            track.wf(),
            i <= r@.len(),
            ids == r@.map_values(|e: (u128, Vec<u8>)| e.0),
            track@ == (TrackerView {
                pushed_handles: old(track)@.pushed_handles.union(ids.subrange(0, i as int).to_set()),
                ..old(track)@
            }),
        decreases r.len() - i,
    {
        track.note_handle_from_network(r[i].0);
        proof {
            assert(ids[i as int] == r@[i as int].0);
            assert(ids.subrange(0, i + 1) =~= ids.subrange(0, i as int).push(ids[i as int]));
            lemma_push_to_set(ids.subrange(0, i as int), ids[i as int]);
            assert(old(track)@.pushed_handles.union(ids.subrange(0, i + 1).to_set()) =~= old(track)@.pushed_handles.union(
                ids.subrange(0, i as int).to_set(),
            ).insert(ids[i as int]));
        }
        i = i + 1;
    }
    proof {
        assert(ids.subrange(0, i as int) =~= ids);
    }
    r
}

} // verus!
