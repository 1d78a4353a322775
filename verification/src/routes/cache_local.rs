//! The local file cache: where a key is stored on disk.
//!
//! A key such as `/img/avatar.png` is kept at `<dir>/cache/img/av/avatar.png`,
//! where `<dir>` is the working directory: the file name is placed in a
//! shard directory named after its first two bytes (`00` for keys of at most
//! two bytes), inside the directories the key names.

use vstd::prelude::*;
use vstd::utf8::{encode_utf8, is_continuation_byte};
use crate::util::bytes::{
    contains_dotdot, decimal, digits, extend_from, lemma_digits_bytes, lemma_trim_suffix, has_dotdot, leading_slash_count, push_decimal,
    trim_leading_slashes,
    DOT, SLASH,
};

verus! {

/// The name of the cache directory, `cache`.
pub open spec fn cache_dir() -> Seq<u8> {
    seq![99u8, 97u8, 99u8, 104u8, 101u8]
}

/// The shard directory of short keys, `00`.
pub open spec fn short_shard() -> Seq<u8> {
    seq![48u8, 48u8]
}

/// The pieces of `s` between `/` bytes, empty pieces included
/// (`a//b` gives `a`, ``, `b`).
pub open spec fn split_slash(s: Seq<u8>) -> Seq<Seq<u8>>
    decreases s.len(),
{
    if s.len() == 0 {
        seq![Seq::<u8>::empty()]
    } else {
        let prev = split_slash(s.drop_last());
        if s.last() == SLASH {
            prev.push(Seq::<u8>::empty())
        } else {
            prev.drop_last().push(prev.last().push(s.last()))
        }
    }
}

/// A piece of a path that names a directory entry: neither empty nor `.`.
pub open spec fn is_normal_component(c: Seq<u8>) -> bool {
    c.len() > 0 && c != seq![DOT]
}

/// The pieces of `segs` that are normal components, in order.
pub open spec fn keep_normal(segs: Seq<Seq<u8>>) -> Seq<Seq<u8>>
    decreases segs.len(),
{
    if segs.len() == 0 {
        segs
    } else if is_normal_component(segs.last()) {
        keep_normal(segs.drop_last()).push(segs.last())
    } else {
        keep_normal(segs.drop_last())
    }
}

/// The components of a relative path: repeated `/` and `.` entries vanish.
pub open spec fn components(s: Seq<u8>) -> Seq<Seq<u8>> {
    keep_normal(split_slash(s))
}

/// The parts joined with `/` between them.
pub open spec fn join_path(parts: Seq<Seq<u8>>) -> Seq<u8>
    decreases parts.len(),
{
    if parts.len() == 0 {
        Seq::<u8>::empty()
    } else if parts.len() == 1 {
        parts[0]
    } else {
        join_path(parts.drop_last()) + seq![SLASH] + parts.last()
    }
}

/// The key with its leading `/` bytes removed.
pub open spec fn key_path(key: Seq<u8>) -> Seq<u8> {
    trim_leading_slashes(key)
}

/// Keys that have no place in the cache: those holding `..` and those
/// that end with `/`.
pub open spec fn key_rejected(key: Seq<u8>) -> bool {
    has_dotdot(key) || (key.len() > 0 && key.last() == SLASH)
}

/// The components of `cache/<key path>`.
pub open spec fn cached_components(key: Seq<u8>) -> Seq<Seq<u8>> {
    seq![cache_dir()] + components(key_path(key))
}

/// The file name the key is stored under: its last component, or `cache`
/// when the key names no component.
pub open spec fn cached_name(key: Seq<u8>) -> Seq<u8> {
    cached_components(key).last()
}

/// The shard directory: `00` for keys whose path has at most two bytes,
/// else the first two bytes of the file name.
pub open spec fn shard(key: Seq<u8>) -> Seq<u8> {
    if key_path(key).len() <= 2 {
        short_shard()
    } else {
        cached_name(key).subrange(0, 2)
    }
}

/// The shard of a key is defined: either the key's path is short, or the file
/// name has at least two bytes and a character boundary after them.
pub open spec fn shard_defined(key: Seq<u8>) -> bool {
    let name = cached_name(key);
    key_path(key).len() <= 2 || (name.len() >= 2 && (name.len() == 2 || !is_continuation_byte(
        name[2],
    )))
}

/// A key that can be stored: not rejected, and with a defined shard.
pub open spec fn valid_cache_key(key: Seq<u8>) -> bool {
    !key_rejected(key) && shard_defined(key)
}

/// The components of the stored file: the directories of the key, the
/// shard directory, then the file name.
pub open spec fn cache_layout(key: Seq<u8>) -> Seq<Seq<u8>> {
    cached_components(key).drop_last() + seq![shard(key), cached_name(key)]
}

/// Where a key is stored, relative to the working directory, or `None` for
/// a rejected key.
pub open spec fn cache_path(key: Seq<u8>) -> Option<Seq<u8>> {
    if key_rejected(key) {
        None
    } else {
        Some(join_path(cache_layout(key)))
    }
}

/// The relative path `rel` inside the directory `dir`, joined as a path
/// buffer joins them: a `/` goes between them unless `dir` is empty or
/// already ends with `/`.
pub open spec fn in_dir(dir: Seq<u8>, rel: Seq<u8>) -> Seq<u8> {
    if dir.len() == 0 || dir.last() == SLASH {
        dir + rel
    } else {
        dir + seq![SLASH] + rel
    }
}

/// Where a key is stored when the working directory is `dir`, or `None`
/// for a rejected key.
pub open spec fn cache_file_path(dir: Seq<u8>, key: Seq<u8>) -> Option<Seq<u8>> {
    match cache_path(key) {
        Some(rel) => Some(in_dir(dir, rel)),
        None => None,
    }
}

/// The name a file is first written under before it is renamed into place:
/// `<path>.<ts>.t`.
pub open spec fn temp_name(path: Seq<u8>, ts: int) -> Seq<u8> {
    path + seq![DOT] + decimal(ts) + seq![DOT, 116u8]
}

/// The bytes of a string.
pub open spec fn str_bytes(s: Seq<char>) -> Seq<u8> {
    encode_utf8(s)
}

/// The temporary file of `path` lies beside it: its name starts with the
/// whole of `path`, goes on without any `/`, and is longer, so it never is
/// `path` itself.
pub proof fn law_temp_sibling(path: Seq<u8>, ts: int)
    ensures
        temp_name(path, ts).len() > path.len(),
        temp_name(path, ts).subrange(0, path.len() as int) == path,
        forall|i: int|
            path.len() <= i < temp_name(path, ts).len() ==> #[trigger] temp_name(path, ts)[i]
                != SLASH,
{
    let t = temp_name(path, ts);
    let d = decimal(ts);
    let m: nat = if ts < 0 { (-ts) as nat } else { ts as nat };
    lemma_digits_bytes(m);
    assert(t.subrange(0, path.len() as int) =~= path);
    assert forall|i: int| path.len() <= i < t.len() implies #[trigger] t[i] != SLASH by {
        if i == path.len() {
        } else if i <= path.len() + d.len() {
            let j = i - path.len() - 1;
            if ts < 0 {
                if j > 0 {
                    assert(d[j] == digits(m)[j - 1]);
                }
            } else {
                assert(d[j] == digits(m)[j]);
            }
        }
    }
}

/// A path component that stays where it is put: not empty, not `.`, free
/// of `..`, and without `/`.
pub open spec fn is_plain_component(c: Seq<u8>) -> bool {
    c.len() > 0 && c != seq![DOT] && !has_dotdot(c) && !c.contains(SLASH)
}

proof fn lemma_split_slash_pieces(s: Seq<u8>)
    ensures
        split_slash(s).len() >= 1,
        split_slash(s).last().len() <= s.len(),
        split_slash(s).last() == s.skip(s.len() - split_slash(s).last().len()),
        forall|i: int| 0 <= i < split_slash(s).len() ==> !(#[trigger] split_slash(s)[i]).contains(
            SLASH,
        ),
        !has_dotdot(s) ==> forall|i: int|
            0 <= i < split_slash(s).len() ==> !has_dotdot(#[trigger] split_slash(s)[i]),
    decreases s.len(),
{
    if s.len() == 0 {
        assert(s.skip(0) =~= Seq::<u8>::empty());
    } else {
        let p = s.drop_last();
        let b = s.last();
        lemma_split_slash_pieces(p);
        let prev = split_slash(p);
        let cur = split_slash(s);
        if b == SLASH {
            assert(cur == prev.push(Seq::<u8>::empty()));
            assert(s.skip(s.len() as int) =~= Seq::<u8>::empty());
            assert forall|i: int| 0 <= i < cur.len() implies !(#[trigger] cur[i]).contains(SLASH) by {
                if i < prev.len() {
                    assert(cur[i] == prev[i]);
                }
            }
            if !has_dotdot(s) {
                assert(!has_dotdot(p)) by {
                    assert forall|i: int| 0 <= i && i + 1 < p.len() implies !(#[trigger] p[i]
                        == DOT && p[i + 1] == DOT) by {
                        assert(p[i] == s[i] && p[i + 1] == s[i + 1]);
                    }
                }
                assert forall|i: int| 0 <= i < cur.len() implies !has_dotdot(
                    #[trigger] cur[i],
                ) by {
                    if i < prev.len() {
                        assert(cur[i] == prev[i]);
                    }
                }
            }
        } else {
            let last = prev.last();
            let nl = last.push(b);
            assert(cur == prev.drop_last().push(nl));
            assert(nl =~= s.skip(s.len() - nl.len()));
            assert forall|i: int| 0 <= i < cur.len() implies !(#[trigger] cur[i]).contains(SLASH) by {
                if i < prev.len() - 1 {
                    assert(cur[i] == prev[i]);
                } else {
                    assert(cur[i] == nl);
                    assert(!prev[prev.len() - 1].contains(SLASH));
                    if nl.contains(SLASH) {
                        let j = choose|j: int| 0 <= j < nl.len() && nl[j] == SLASH;
                        if j < last.len() {
                            assert(last[j] == SLASH);
                        }
                    }
                }
            }
            if !has_dotdot(s) {
                assert(!has_dotdot(p)) by {
                    assert forall|i: int| 0 <= i && i + 1 < p.len() implies !(#[trigger] p[i]
                        == DOT && p[i + 1] == DOT) by {
                        assert(p[i] == s[i] && p[i + 1] == s[i + 1]);
                    }
                }
                assert(!has_dotdot(prev[prev.len() - 1]));
                assert(!has_dotdot(nl)) by {
                    assert forall|i: int| 0 <= i && i + 1 < nl.len() implies !(#[trigger] nl[i]
                        == DOT && nl[i + 1] == DOT) by {
                        if i + 1 < last.len() {
                            assert(nl[i] == last[i] && nl[i + 1] == last[i + 1]);
                        } else {
                            let k = s.len() - nl.len() + i;
                            assert(nl[i] == s[k] && nl[i + 1] == s[k + 1]);
                        }
                    }
                }
                assert forall|i: int| 0 <= i < cur.len() implies !has_dotdot(
                    #[trigger] cur[i],
                ) by {
                    if i < prev.len() - 1 {
                        assert(cur[i] == prev[i]);
                    }
                }
            }
        }
    }
}

proof fn lemma_keep_normal_from(segs: Seq<Seq<u8>>)
    ensures
        forall|i: int|
            0 <= i < keep_normal(segs).len() ==> is_normal_component(#[trigger] keep_normal(segs)[i])
                && segs.contains(keep_normal(segs)[i]),
    decreases segs.len(),
{
    if segs.len() > 0 {
        let prev = segs.drop_last();
        lemma_keep_normal_from(prev);
        let k = keep_normal(segs);
        assert forall|i: int| 0 <= i < k.len() implies is_normal_component(#[trigger] k[i])
            && segs.contains(k[i]) by {
            let kp = keep_normal(prev);
            if i < kp.len() {
                assert(k[i] == kp[i]);
                let j = choose|j: int| 0 <= j < prev.len() && prev[j] == kp[i];
                assert(segs[j] == prev[j]);
            } else {
                assert(k[i] == segs.last());
                assert(segs[segs.len() - 1] == segs.last());
            }
        }
    }
}

/// A storable key never leads out of the working directory: its stored file
/// is made of plain components (none empty, `.`, or `..`, none holding `/`),
/// the last of them the file name and the one before it the shard directory.
pub proof fn law_cache_layout_plain(key: Seq<u8>)
    requires
        valid_cache_key(key),
    ensures
        cache_layout(key).len() >= 2,
        cache_layout(key).last() == cached_name(key),
        cache_layout(key)[cache_layout(key).len() - 2] == shard(key),
        forall|i: int|
            0 <= i < cache_layout(key).len() ==> is_plain_component(#[trigger] cache_layout(key)[i]),
{
    let rel = key_path(key);
    lemma_trim_suffix(key);
    lemma_split_slash_pieces(rel);
    lemma_keep_normal_from(split_slash(rel));
    let comps = components(rel);
    let all = cached_components(key);
    let lay = cache_layout(key);
    assert(is_plain_component(cache_dir())) by {
        assert(cache_dir() != seq![DOT]) by {
            assert(cache_dir().len() != 1);
        }
        assert forall|i: int| 0 <= i && i + 1 < cache_dir().len() implies !(
        #[trigger] cache_dir()[i] == DOT && cache_dir()[i + 1] == DOT) by {}
    }
    assert forall|i: int| 0 <= i < all.len() implies is_plain_component(#[trigger] all[i]) by {
        if i > 0 {
            assert(all[i] == comps[i - 1]);
            let j = choose|j: int| 0 <= j < split_slash(rel).len() && split_slash(rel)[j] == comps[i - 1];
            assert(!split_slash(rel)[j].contains(SLASH));
            assert(!has_dotdot(split_slash(rel)[j]));
        }
    }
    let name = cached_name(key);
    assert(is_plain_component(name)) by {
        assert(name == all[all.len() - 1]);
    }
    assert(is_plain_component(shard(key))) by {
        let sh = shard(key);
        if rel.len() <= 2 {
            assert(sh != seq![DOT]) by {
                assert(sh.len() != 1);
            }
            assert forall|i: int| 0 <= i && i + 1 < sh.len() implies !(#[trigger] sh[i] == DOT
                && sh[i + 1] == DOT) by {}
        } else {
            assert(sh =~= name.subrange(0, 2));
            assert(sh != seq![DOT]) by {
                assert(sh.len() != 1);
            }
            assert forall|i: int| 0 <= i && i + 1 < sh.len() implies !(#[trigger] sh[i] == DOT
                && sh[i + 1] == DOT) by {
                assert(sh[i] == name[i] && sh[i + 1] == name[i + 1]);
            }
            if sh.contains(SLASH) {
                let j = choose|j: int| 0 <= j < sh.len() && sh[j] == SLASH;
                assert(name[j] == SLASH);
            }
        }
    }
    assert forall|i: int| 0 <= i < lay.len() implies is_plain_component(#[trigger] lay[i]) by {
        if i < all.len() - 1 {
            assert(lay[i] == all[i]);
        } else if i == all.len() - 1 {
            assert(lay[i] == shard(key));
        } else {
            assert(lay[i] == name);
        }
    }
}

proof fn lemma_split_slash_nonempty(s: Seq<u8>)
    ensures
        split_slash(s).len() >= 1,
    decreases s.len(),
{
    if s.len() > 0 {
        lemma_split_slash_nonempty(s.drop_last());
    }
}

proof fn lemma_join_push(parts: Seq<Seq<u8>>, x: Seq<u8>)
    requires
        parts.len() >= 1,
    ensures
        join_path(parts.push(x)) == join_path(parts) + seq![SLASH] + x,
{
    assert(parts.push(x).drop_last() =~= parts);
}

/// The components of `rel`, in order.
fn path_components(rel: &[u8]) -> (comps: Vec<Vec<u8>>)
    ensures
        comps.deep_view() == components(rel@),
{
    let n = rel.len();
    let mut comps: Vec<Vec<u8>> = Vec::new();
    let mut cur: Vec<u8> = Vec::new();
    let mut i: usize = 0;
    proof {
        assert(rel@.take(0) =~= Seq::<u8>::empty());
        assert(comps.deep_view() =~= Seq::<Seq<u8>>::empty());
    }
    while i < n
        invariant
            n == rel@.len(),
            i <= n,
            split_slash(rel@.take(i as int)).len() >= 1,
            comps.deep_view() == keep_normal(split_slash(rel@.take(i as int)).drop_last()),
            cur@ == split_slash(rel@.take(i as int)).last(),
        decreases n - i,
    {
        let ghost before = rel@.take(i as int);
        let ghost segs = split_slash(before);
        let b = rel[i];
        assert(rel@.take(i + 1).drop_last() =~= before);
        i = i + 1;
        let ghost after = rel@.take(i as int);
        proof {
            lemma_split_slash_nonempty(after);
        }
        if b == SLASH {
            assert(split_slash(after) == segs.push(Seq::<u8>::empty()));
            assert(segs.push(Seq::<u8>::empty()).drop_last() =~= segs);
            let normal = cur.len() > 0 && !(cur.len() == 1 && cur[0] == DOT);
            assert(normal == is_normal_component(cur@)) by {
                if cur.len() == 1 && cur[0] == DOT {
                    assert(cur@ =~= seq![DOT]);
                }
                if cur@ == seq![DOT] {
                    assert(cur@[0] == DOT);
                }
            }
            let ghost old_comps = comps.deep_view();
            if normal {
                assert(cur.deep_view() =~= cur@);
                comps.push(cur);
                assert(comps.deep_view() =~= old_comps.push(segs.last()));
            }
            assert(segs.drop_last().push(segs.last()) =~= segs);
            cur = Vec::new();
            assert(cur@ =~= Seq::<u8>::empty());
        } else {
            cur.push(b);
            assert(split_slash(after) == segs.drop_last().push(segs.last().push(b)));
            assert(segs.drop_last().push(segs.last().push(b)).drop_last() =~= segs.drop_last());
        }
    }
    assert(rel@.take(n as int) =~= rel@);
    let ghost segs = split_slash(rel@);
    assert(segs.drop_last().push(segs.last()) =~= segs);
    let normal = cur.len() > 0 && !(cur.len() == 1 && cur[0] == DOT);
    assert(normal == is_normal_component(cur@)) by {
        if cur.len() == 1 && cur[0] == DOT {
            assert(cur@ =~= seq![DOT]);
        }
        if cur@ == seq![DOT] {
            assert(cur@[0] == DOT);
        }
    }
    let ghost old_comps = comps.deep_view();
    if normal {
        assert(cur.deep_view() =~= cur@);
        comps.push(cur);
        assert(comps.deep_view() =~= old_comps.push(segs.last()));
    }
    comps
}

/// Appends `/` and then `part` to `out`.
fn push_part(out: &mut Vec<u8>, part: &[u8])
    ensures
        final(out)@ == old(out)@ + seq![SLASH] + part@,
{
    out.push(SLASH);
    extend_from(out, part, 0);
    assert(part@.skip(0) =~= part@);
    assert(final(out)@ =~= old(out)@ + seq![SLASH] + part@);
}

/// Where the cache stores `key`, relative to the working directory; `None`
/// when the key holds `..` or ends with `/`.
fn relative_cache_path(key: &str) -> (r: Option<Vec<u8>>)
    requires
        !key_rejected(str_bytes(key@)) ==> shard_defined(str_bytes(key@)),
    ensures
        r is None <==> cache_path(str_bytes(key@)) is None,
        r matches Some(v) ==> cache_path(str_bytes(key@)) == Some(v@),
{
    let kb = key.as_bytes();
    let ghost k = kb@;
    assert(k == str_bytes(key@));
    let n = kb.len();
    if contains_dotdot(kb) || (n > 0 && kb[n - 1] == SLASH) {
        return None;
    }
    let start = leading_slash_count(kb);
    let mut rel: Vec<u8> = Vec::new();
    extend_from(&mut rel, kb, start);
    assert(rel@ == key_path(k));
    let comps = path_components(rel.as_slice());
    let ghost cs = comps.deep_view();
    let ghost all = seq![cache_dir()] + cs;
    assert(all == cached_components(k));
    let m = comps.len();
    // the file name and the directories above it
    let mut out: Vec<u8> = Vec::new();
    out.push(99u8);
    out.push(97u8);
    out.push(99u8);
    out.push(104u8);
    out.push(101u8);
    assert(out@ =~= cache_dir());
    let name: &[u8];
    if m == 0 {
        assert(all =~= seq![cache_dir()]);
        name = out.as_slice();
    } else {
        assert(all.last() == cs.last());
        assert(comps@[m - 1].deep_view() =~= comps@[m - 1]@);
        name = comps[m - 1].as_slice();
    }
    assert(name@ == cached_name(k));
    let mut shard_bytes: Vec<u8> = Vec::new();
    if rel.len() <= 2 {
        shard_bytes.push(48u8);
        shard_bytes.push(48u8);
        assert(shard_bytes@ =~= short_shard());
    } else {
        shard_bytes.push(name[0]);
        shard_bytes.push(name[1]);
        assert(shard_bytes@ =~= name@.subrange(0, 2));
    }
    assert(shard_bytes@ == shard(k));
    let mut path: Vec<u8> = Vec::new();
    if m == 0 {
        extend_from(&mut path, shard_bytes.as_slice(), 0);
        push_part(&mut path, out.as_slice());
        proof {
            assert(shard_bytes@.skip(0) =~= shard_bytes@);
            let lay = cache_layout(k);
            assert(all.drop_last() =~= Seq::<Seq<u8>>::empty());
            assert(lay =~= seq![shard(k), cached_name(k)]);
            assert(lay.drop_last() =~= seq![shard(k)]);
            assert(seq![shard(k)].push(cached_name(k)) =~= lay);
            lemma_join_push(seq![shard(k)], cached_name(k));
            assert(path@ =~= join_path(lay));
        }
    } else {
        let mut j: usize = 0;
        let ghost parents = all.drop_last();
        assert(parents.take(1) =~= seq![cache_dir()]);
        extend_from(&mut path, out.as_slice(), 0);
        assert(out@.skip(0) =~= out@);
        assert(path@ =~= join_path(parents.take(1)));
        while j + 1 < m
            invariant
                m == comps.deep_view().len(),
                m >= 1,
                j + 1 <= m,
                cs == comps.deep_view(),
                all == seq![cache_dir()] + cs,
                parents == all.drop_last(),
                parents.len() == m,
                path@ == join_path(parents.take(j + 1)),
            decreases m - j,
        {
            push_part(&mut path, comps[j].as_slice());
            proof {
                assert(comps@[j as int].deep_view() =~= comps@[j as int]@);
                assert(comps[j as int]@ == cs[j as int]);
                assert(parents[j + 1] == cs[j as int]);
                lemma_join_push(parents.take(j + 1), parents[j + 1]);
                assert(parents.take(j + 1).push(parents[j + 1]) =~= parents.take(j + 2));
            }
            j = j + 1;
        }
        assert(parents.take(m as int) =~= parents);
        push_part(&mut path, shard_bytes.as_slice());
        push_part(&mut path, name);
        proof {
            let lay = cache_layout(k);
            assert(lay =~= parents.push(shard(k)).push(cached_name(k)));
            lemma_join_push(parents, shard(k));
            lemma_join_push(parents.push(shard(k)), cached_name(k));
        }
    }
    Some(path)
}

/// Whether `key` can be stored: `LocalCache::new` accepts exactly these keys.
pub fn check_cache_key(key: &str) -> (r: bool)
    ensures
        r == valid_cache_key(str_bytes(key@)),
{
    let kb = key.as_bytes();
    let ghost k = kb@;
    let n = kb.len();
    if contains_dotdot(kb) || (n > 0 && kb[n - 1] == SLASH) {
        return false;
    }
    let start = leading_slash_count(kb);
    let mut rel: Vec<u8> = Vec::new();
    extend_from(&mut rel, kb, start);
    if rel.len() <= 2 {
        return true;
    }
    let comps = path_components(rel.as_slice());
    let ghost cs = comps.deep_view();
    let m = comps.len();
    if m == 0 {
        // the file name is `cache`
        assert(cached_components(k) =~= seq![cache_dir()]);
        return !is_continuation(99u8);
    }
    assert(cached_components(k).last() == cs.last());
    assert(comps@[m - 1].deep_view() =~= comps@[m - 1]@);
    let name = comps[m - 1].as_slice();
    name.len() >= 2 && (name.len() == 2 || !is_continuation(name[2]))
}

/// Whether `b` continues a multi-byte UTF-8 sequence.
fn is_continuation(b: u8) -> (r: bool)
    ensures
        r == is_continuation_byte(b),
{
    0x80 <= b && b <= 0xbf
}

/// Where the cache stores `key` when the working directory is `cwd` (the
/// bytes of an absolute path): the directory, then the relative path of the
/// key; `None` when the key holds `..` or ends with `/`.
pub fn gen_cache_path(key: &str, cwd: &[u8]) -> (r: Option<Vec<u8>>)
    requires
        !key_rejected(str_bytes(key@)) ==> shard_defined(str_bytes(key@)),
    ensures
        r is None <==> cache_file_path(cwd@, str_bytes(key@)) is None,
        r matches Some(v) ==> cache_file_path(cwd@, str_bytes(key@)) == Some(v@),
{
    match relative_cache_path(key) {
        None => None,
        Some(rel) => Some(join_in_dir(cwd, rel.as_slice())),
    }
}

/// The stored file of a storable key ends with `/`, the shard directory,
/// `/`, and the file name; the shard directory is `00` when the key without
/// its leading `/` has at most two bytes, else the first two bytes of the
/// file name.
pub proof fn law_stored_name_and_shard(dir: Seq<u8>, key: Seq<u8>)
    requires
        valid_cache_key(key),
        dir.len() > 0,
    ensures
        ({
            let f = cache_file_path(dir, key)->Some_0;
            let n = cached_name(key);
            let k = f.len() - n.len();
            &&& f.len() >= n.len() + 4
            &&& f.subrange(k, f.len() as int) == n
            &&& f[k - 1] == SLASH
            &&& f[k - 4] == SLASH
            &&& f.subrange(k - 3, k - 1) == (if key_path(key).len() <= 2 {
                seq![48u8, 48u8]
            } else {
                n.subrange(0, 2)
            })
        }),
{
    let lay = cache_layout(key);
    let sh = shard(key);
    let n = cached_name(key);
    assert(lay.len() >= 2 && lay.last() == n && lay[lay.len() - 2] == sh) by {
        law_cache_layout_plain(key);
    }
    assert(sh.len() == 2) by {
        if key_path(key).len() > 2 {
            assert(n.len() >= 2);
        }
    }
    let p = lay.drop_last().drop_last();
    assert(lay =~= p.push(sh).push(n));
    let tail = seq![SLASH] + sh + seq![SLASH] + n;
    let rel = join_path(lay);
    let z: Seq<u8> = if p.len() == 0 {
        if dir.last() == SLASH {
            dir.drop_last()
        } else {
            dir
        }
    } else if dir.last() == SLASH {
        dir + join_path(p)
    } else {
        dir + seq![SLASH] + join_path(p)
    };
    assert(in_dir(dir, rel) == z + tail) by {
        if p.len() == 0 {
            assert(p.push(sh) =~= seq![sh]);
            lemma_join_push(p.push(sh), n);
            assert(rel =~= sh + seq![SLASH] + n);
            if dir.last() == SLASH {
                assert(dir =~= dir.drop_last().push(SLASH));
            }
            assert(in_dir(dir, rel) =~= z + tail);
        } else {
            lemma_join_push(p, sh);
            lemma_join_push(p.push(sh), n);
            assert(rel =~= join_path(p) + tail);
            assert(in_dir(dir, rel) =~= z + tail);
        }
    }
    lemma_tail_parts(z, sh, n);
}

proof fn lemma_tail_parts(z: Seq<u8>, sh: Seq<u8>, n: Seq<u8>)
    requires
        sh.len() == 2,
    ensures
        ({
            let f = z + (seq![SLASH] + sh + seq![SLASH] + n);
            let k = f.len() - n.len();
            &&& f.len() >= n.len() + 4
            &&& f.subrange(k, f.len() as int) == n
            &&& f[k - 1] == SLASH
            &&& f[k - 4] == SLASH
            &&& f.subrange(k - 3, k - 1) == sh
        }),
{
    let f = z + (seq![SLASH] + sh + seq![SLASH] + n);
    let k = f.len() - n.len();
    assert(f.subrange(k, f.len() as int) =~= n);
    assert(f.subrange(k - 3, k - 1) =~= sh);
}

/// `rel` inside the directory `dir`.
fn join_in_dir(dir: &[u8], rel: &[u8]) -> (r: Vec<u8>)
    ensures
        r@ == in_dir(dir@, rel@),
{
    let mut out: Vec<u8> = Vec::new();
    extend_from(&mut out, dir, 0);
    assert(dir@.skip(0) =~= dir@);
    let n = dir.len();
    if !(n == 0 || dir[n - 1] == SLASH) {
        out.push(SLASH);
    }
    extend_from(&mut out, rel, 0);
    assert(rel@.skip(0) =~= rel@);
    assert(out@ =~= in_dir(dir@, rel@));
    out
}

/// The stored file of a key lies inside the working directory: its path
/// starts with the directory, followed by `/` (or the directory already ends
/// with one), then the plain components of the key's layout joined by `/`.
pub proof fn law_stored_under_dir(dir: Seq<u8>, key: Seq<u8>)
    requires
        valid_cache_key(key),
        dir.len() > 0,
    ensures
        cache_file_path(dir, key) matches Some(f) && f.len() > dir.len() && f.subrange(
            0,
            dir.len() as int,
        ) == dir && (dir.last() == SLASH || f[dir.len() as int] == SLASH) && f == in_dir(
            dir,
            join_path(cache_layout(key)),
        ),
{
    law_cache_layout_plain(key);
    let lay = cache_layout(key);
    let rel = join_path(lay);
    assert(rel.len() > 0) by {
        lemma_join_push(lay.drop_last(), lay.last());
        assert(lay.drop_last().push(lay.last()) =~= lay);
        assert(is_plain_component(lay[lay.len() - 1]));
    }
    let f = in_dir(dir, rel);
    assert(f.subrange(0, dir.len() as int) =~= dir);
}

/// `<path>.<ts>.t`, the name a file is written under before it is renamed
/// to `path`.
pub fn temp_path(path: &[u8], ts: i64) -> (r: Vec<u8>)
    ensures
        r@ == temp_name(path@, ts as int),
{
    let mut out: Vec<u8> = Vec::new();
    extend_from(&mut out, path, 0);
    out.push(DOT);
    push_decimal(&mut out, ts);
    out.push(DOT);
    out.push(116u8);
    assert(path@.skip(0) =~= path@);
    assert(out@ =~= temp_name(path@, ts as int));
    out
}

/// A file of the local cache: the key it was asked for by and where it is
/// stored.
pub struct LocalCache {
    pub key: String,
    /// The path of the stored file, inside the working directory.
    pub file: Vec<u8>,
}

impl LocalCache {
    /// The cache entry of `key`, when the working directory is `cwd`. The
    /// key must be storable: it holds no `..`, does not end with `/`, and its
    /// shard is defined.
    pub fn new(key: String, cwd: &[u8]) -> (r: Self)
        requires
            valid_cache_key(str_bytes(key@)),
        ensures
            r.key@ == key@,
            cache_file_path(cwd@, str_bytes(key@)) == Some(r.file@),
    {
        let file = match gen_cache_path(key.as_str(), cwd) {
            Some(f) => f,
            None => Vec::new(),
        };
        LocalCache { key, file }
    }

    /// The name a new content of the file is written under before it
    /// replaces the file: `<file>.<now>.t`, with `now` the clock in whole
    /// seconds since the Unix epoch.
    pub fn temp_file(&self, now: i64) -> (r: Vec<u8>)
        ensures
            r@ == temp_name(self.file@, now as int),
    {
        temp_path(self.file.as_slice(), now)
    }

    /// The path of the stored file.
    pub fn find(&self) -> (r: &Vec<u8>)
        ensures
            *r == self.file,
    {
        &self.file
    }
}

} // verus!
