//! The peer store: nickname → peer-id bindings, each optionally annotated
//! with the most recent common ancestor known for that peer.

use vstd::prelude::*;

use crate::PeerId;
use crate::api::protocol::AddPeerError;
use crate::git::{Commit, commit_eq};

verus! {

/// One binding of the store: a nickname, the peer it names, and, if known,
/// the most recent common ancestor of the local repository and that peer's.
#[derive(Debug, PartialEq)]
pub struct PeerEntry {
    pub nickname: String,
    pub peer: PeerId,
    pub mrca: Option<Commit>,
}

/// The in-memory peer store.  Nicknames are unique; a peer may be bound
/// under more than one nickname.
#[derive(Debug, PartialEq)]
pub struct Database {
    pub entries: Vec<PeerEntry>,
}

/// The most recent common ancestor the store knows for `peer`: the
/// annotation of the first binding of that peer, if any.
pub open spec fn mrca_lookup(s: Seq<PeerEntry>, peer: Seq<u8>) -> Option<Commit>
    decreases s.len(),
{
    if s.len() == 0 {
        None
    } else if s[0].peer.bytes@ == peer {
        s[0].mrca
    } else {
        mrca_lookup(s.drop_first(), peer)
    }
}

/// Two optional commits that name the same commit (or are both absent).
pub open spec fn opt_commit_eq(a: Option<Commit>, b: Option<Commit>) -> bool {
    match (a, b) {
        (Option::None, Option::None) => true,
        (Option::Some(x), Option::Some(y)) => commit_eq(x, y),
        _ => false,
    }
}

impl Database {
    /// Nicknames are bound at most once.
    pub open spec fn wf(self) -> bool {
        forall|i: int, j: int|
            0 <= i < j < self.entries@.len()
                ==> self.entries@[i].nickname@ != self.entries@[j].nickname@
    }

    /// Whether `peer` is bound under some nickname.
    pub open spec fn has_peer(self, peer: Seq<u8>) -> bool {
        exists|i: int|
            0 <= i < self.entries@.len() && #[trigger] self.entries@[i].peer.bytes@ == peer
    }

    /// Whether `nickname` is bound.
    pub open spec fn has_nickname(self, nickname: Seq<char>) -> bool {
        exists|i: int|
            0 <= i < self.entries@.len() && #[trigger] self.entries@[i].nickname@ == nickname
    }

    /// The peer bound under `nickname` (meaningful only when the store is
    /// well formed and the nickname is bound, which pins the binding).
    pub open spec fn peer_of(self, nickname: Seq<char>) -> Seq<u8> {
        let i = choose|i: int|
            0 <= i < self.entries@.len() && #[trigger] self.entries@[i].nickname@ == nickname;
        self.entries@[i].peer.bytes@
    }

    pub fn new() -> (db: Self)
        ensures
            db.wf(),
            db.entries@.len() == 0,
    {
        Database { entries: Vec::new() }
    }

    /// Whether the store contains the provided peer id.
    pub fn contains(&self, peer: &PeerId) -> (r: bool)
        ensures
            r == self.has_peer(peer.bytes@),
    {
        let mut i: usize = 0;
        while i < self.entries.len()
            invariant
                i <= self.entries@.len(),
                forall|j: int| 0 <= j < i ==> #[trigger] self.entries@[j].peer.bytes@ != peer.bytes@,
            decreases self.entries@.len() - i,
        {
            if self.entries[i].peer.equals(peer) {
                return true;
            }
            i = i + 1;
        }
        false
    }

    /// The peer id bound under this nickname, if the nickname is bound.
    pub fn get_peer_id_from_nickname(&self, nickname: &String) -> (r: Option<PeerId>)
        requires
            self.wf(),
        ensures
            r is Some <==> self.has_nickname(nickname@),
            r matches Some(p) ==> p.bytes@ == self.peer_of(nickname@),
    {
        let mut i: usize = 0;
        while i < self.entries.len()
            invariant
                self.wf(),
                i <= self.entries@.len(),
                forall|j: int| 0 <= j < i ==> #[trigger] self.entries@[j].nickname@ != nickname@,
            decreases self.entries@.len() - i,
        {
            if self.entries[i].nickname.eq(nickname) {
                return Some(self.entries[i].peer.clone());
            }
            i = i + 1;
        }
        None
    }

    /// The most recent common ancestor known for `peer`, if any.
    pub fn get_most_recent_common_ancestor(&self, peer: &PeerId) -> (r: Option<Commit>)
        ensures
            opt_commit_eq(r, mrca_lookup(self.entries@, peer.bytes@)),
    {
        let mut i: usize = 0;
        assert(self.entries@.skip(0) =~= self.entries@);
        while i < self.entries.len()
            invariant
                i <= self.entries@.len(),
                mrca_lookup(self.entries@, peer.bytes@)
                    == mrca_lookup(self.entries@.skip(i as int), peer.bytes@),
            decreases self.entries@.len() - i,
        {
            proof {
                assert(self.entries@.skip(i as int).drop_first()
                    =~= self.entries@.skip(i as int + 1));
            }
            assert(self.entries@.skip(i as int)[0] == self.entries@[i as int]);
            if self.entries[i].peer.equals(peer) {
                return match &self.entries[i].mrca {
                    Option::Some(c) => Some(c.clone()),
                    Option::None => None,
                };
            }
            i = i + 1;
        }
        None
    }

    /// Bind `nickname` to `peer_id`, unless the nickname is already bound.
    pub fn add_peer(&mut self, peer_id: PeerId, nickname: String) -> (r: Result<
        (),
        AddPeerError,
    >)
        requires
            old(self).wf(),
        ensures
            final(self).wf(),
            old(self).has_nickname(nickname@) ==> {
                &&& r == Err::<(), AddPeerError>(AddPeerError::NicknameAlreadyExists)
                &&& *final(self) == *old(self)
            },
            !old(self).has_nickname(nickname@) ==> {
                &&& r == Ok::<(), AddPeerError>(())
                &&& final(self).entries@ == old(self).entries@.push(
                    PeerEntry { nickname, peer: peer_id, mrca: Option::None },
                )
            },
    {
        let mut i: usize = 0;
        let mut bound = false;
        while i < self.entries.len()
            invariant
                i <= self.entries@.len(),
                bound <==> exists|j: int|
                    0 <= j < i && #[trigger] self.entries@[j].nickname@ == nickname@,
            decreases self.entries@.len() - i,
        {
            if self.entries[i].nickname.eq(&nickname) {
                bound = true;
            }
            i = i + 1;
        }
        if bound {
            Err(AddPeerError::NicknameAlreadyExists)
        } else {
            self.entries.push(PeerEntry { nickname, peer: peer_id, mrca: Option::None });
            Ok(())
        }
    }
}

/// Why a path cannot back the peer store.
#[derive(Debug, PartialEq)]
pub enum Error {
    /// The path names no file with an extension.
    IsDirectory,
    /// The file name is not valid text.
    InvalidFileExtension(String),
    /// The extension names no supported store format.
    UnhandledExtension(String),
}

/// What follows the last occurrence of `c` in `s`, or `None` when `c` does
/// not occur.
pub open spec fn after_last(s: Seq<char>, c: char) -> Option<Seq<char>>
    decreases s.len(),
{
    if s.len() == 0 {
        None
    } else if s.last() == c {
        Some(Seq::empty())
    } else {
        match after_last(s.drop_last(), c) {
            Option::Some(t) => Some(t.push(s.last())),
            Option::None => None,
        }
    }
}

/// The extension of the file `s` names: what follows the last `.` of the
/// segment after the last `/`, unless that `.` opens the segment.
pub open spec fn path_extension(s: Seq<char>) -> Option<Seq<char>> {
    let seg = match after_last(s, '/') {
        Option::Some(t) => t,
        Option::None => s,
    };
    match after_last(seg, '.') {
        Option::None => None,
        Option::Some(ext) => if ext.len() + 1 == seg.len() {
            None
        } else {
            Some(ext)
        },
    }
}

proof fn lemma_after_last_at(s: Seq<char>, c: char, m: int)
    requires
        0 <= m < s.len(),
        s[m] == c,
        forall|j: int| m < j < s.len() ==> s[j] != c,
    ensures
        after_last(s, c) == Some(s.skip(m + 1)),
    decreases s.len(),
{
    if m == s.len() - 1 {
        assert(s.skip(m + 1) =~= Seq::<char>::empty());
    } else {
        assert(s.drop_last()[m] == c);
        lemma_after_last_at(s.drop_last(), c, m);
        assert(s.drop_last().skip(m + 1).push(s.last()) =~= s.skip(m + 1));
    }
}

proof fn lemma_after_last_none(s: Seq<char>, c: char)
    requires
        forall|j: int| 0 <= j < s.len() ==> s[j] != c,
    ensures
        after_last(s, c) is None,
    decreases s.len(),
{
    if s.len() > 0 {
        lemma_after_last_none(s.drop_last(), c);
    }
}

/// Whether `path` can back the peer store: it must name a file whose
/// extension is `yaml`.
pub fn check_database_path(path: &str) -> (r: Result<(), Error>)
    ensures
        path_extension(path@) is None ==> r == Err::<(), Error>(Error::IsDirectory),
        (path_extension(path@) matches Some(ext) && ext == "yaml"@) ==> r == Ok::<(), Error>(()),
        (path_extension(path@) matches Some(ext) && ext != "yaml"@) ==> (r matches Err(e) && (
        e matches Error::UnhandledExtension(p) && p@ == path@)),
{
    let n = path.unicode_len();
    let mut seg_start: usize = 0;
    let mut last_dot: Option<usize> = None;
    let mut i: usize = 0;
    while i < n
        invariant
            i <= n,
            seg_start <= i,
            n == path@.len(),
            seg_start > 0 ==> path@[seg_start - 1] == '/',
            forall|j: int| seg_start <= j < i ==> path@[j] != '/',
            match last_dot {
                Option::None => forall|j: int| seg_start <= j < i ==> path@[j] != '.',
                Option::Some(d) => {
                    &&& seg_start <= d < i
                    &&& path@[d as int] == '.'
                    &&& forall|j: int| d < j < i ==> path@[j] != '.'
                },
            },
        decreases n - i,
    {
        let ch = path.get_char(i);
        if ch == '/' {
            seg_start = i + 1;
            last_dot = None;
        } else if ch == '.' {
            last_dot = Some(i);
        }
        i = i + 1;
    }
    let ghost seg = path@.skip(seg_start as int);
    proof {
        if seg_start > 0 {
            lemma_after_last_at(path@, '/', seg_start - 1);
        } else {
            lemma_after_last_none(path@, '/');
            assert(path@.skip(0) =~= path@);
        }
    }
    match last_dot {
        Option::None => {
            proof {
                assert forall|j: int| 0 <= j < seg.len() implies seg[j] != '.' by {
                    assert(seg[j] == path@[seg_start + j]);
                }
                lemma_after_last_none(seg, '.');
            }
            Err(Error::IsDirectory)
        },
        Option::Some(d) => {
            proof {
                assert(seg[d - seg_start] == path@[d as int]);
                assert forall|j: int| d - seg_start < j < seg.len() implies seg[j] != '.' by {
                    assert(seg[j] == path@[seg_start + j]);
                }
                lemma_after_last_at(seg, '.', d - seg_start);
                assert(seg.skip(d - seg_start + 1) =~= path@.skip(d + 1));
            }
            if d == seg_start {
                Err(Error::IsDirectory)
            } else {
                let ext_len = n - d - 1;
                if ext_len == 4 && path.get_char(d + 1) == 'y' && path.get_char(d + 2) == 'a'
                    && path.get_char(d + 3) == 'm' && path.get_char(d + 4) == 'l' {
                    proof {
                        reveal_strlit("yaml");
                        assert(path@.skip(d as int + 1) =~= "yaml"@);
                    }
                    Ok(())
                } else {
                    proof {
                        reveal_strlit("yaml");
                        if path@.skip(d as int + 1) == "yaml"@ {
                            assert(path@.skip(d as int + 1).len() == 4);
                            assert(path@[d as int + 1] == "yaml"@[0]);
                            assert(path@[d as int + 2] == "yaml"@[1]);
                            assert(path@[d as int + 3] == "yaml"@[2]);
                            assert(path@[d as int + 4] == "yaml"@[3]);
                            assert(false);
                        }
                    }
                    Err(Error::UnhandledExtension(path.to_owned()))
                }
            }
        },
    }
}

} // verus!
