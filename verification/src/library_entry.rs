use vstd::prelude::*;

use crate::hashing::hash;
use crate::hashing::hash_list;
use crate::hashing::spec_hash;
use crate::hashing::spec_hash_pair;
use crate::listable::Listable;
use crate::order::Cmp;
use crate::order::cmp_bool;
use crate::order::cmp_chain;
use crate::order::cmp_flip;
use crate::order::cmp_int;
use crate::order::cmp_opt_chars;
use crate::order::cmp_opt_int;
use crate::order::lex_cmp;
use crate::order::lemma_opt_chars_eq;
use crate::order::lemma_opt_chars_flip;
use crate::order::lemma_opt_chars_trans_le;
use crate::text_util::chars_string;
use crate::text_util::lower_of;
use crate::text_util::lowercase_chars;
use crate::text_util::str_chars;
use crate::time_span::TimeSpan;
use crate::time_span::dec_chars;
use crate::time_span::push_dec;

verus! {

/// One audio file of the library; also used, with `is_album_padding` set,
/// as the synthesized non-selectable album banner row.
#[derive(Clone, Debug, PartialEq, Eq)]
pub struct TrackFile {
    /// marks the row as an album header in the library view
    pub is_album_padding: bool,
    pub id_artist: u64,
    pub id_album: u64,
    pub id_track: u64,
    pub duration: TimeSpan,
    pub year: Option<u16>,
    pub album_artist: Option<String>,
    pub album_title: Option<String>,
    pub album_number: Option<u8>,
    pub track_artist: Option<String>,
    pub track_title: String,
    pub track_number: Option<u8>,
}

pub open spec fn opt_u16_int(o: Option<u16>) -> Option<int> {
    match o {
        Option::Some(v) => Option::Some(v as int),
        Option::None => Option::None,
    }
}

pub open spec fn opt_u8_int(o: Option<u8>) -> Option<int> {
    match o {
        Option::Some(v) => Option::Some(v as int),
        Option::None => Option::None,
    }
}

/// The lowercased view of an optional name, as the display order uses it.
pub open spec fn opt_lower(o: Option<String>) -> Option<Seq<char>> {
    match o {
        Option::Some(s) => Option::Some(lower_of(s@)),
        Option::None => Option::None,
    }
}

/// Display order of tracks: year, then lowered album artist, then lowered
/// album title, then disc number, then the album header row first, then
/// track number.
pub open spec fn track_cmp(a: TrackFile, b: TrackFile) -> Cmp {
    cmp_chain(
        cmp_opt_int(opt_u16_int(a.year), opt_u16_int(b.year)),
        cmp_chain(
            cmp_opt_chars(opt_lower(a.album_artist), opt_lower(b.album_artist)),
            cmp_chain(
                cmp_opt_chars(opt_lower(a.album_title), opt_lower(b.album_title)),
                cmp_chain(
                    cmp_opt_int(opt_u8_int(a.album_number), opt_u8_int(b.album_number)),
                    cmp_chain(
                        cmp_bool(!a.is_album_padding, !b.is_album_padding),
                        cmp_opt_int(opt_u8_int(a.track_number), opt_u8_int(b.track_number)),
                    ),
                ),
            ),
        ),
    )
}

/// All order-relevant facts about a triple of optional char sequences.
proof fn lemma_opt_chars_order3(
    x: Option<Seq<char>>,
    y: Option<Seq<char>>,
    z: Option<Seq<char>>,
)
    ensures
        (cmp_opt_chars(x, y) is Equal) <==> x == y,
        (cmp_opt_chars(y, z) is Equal) <==> y == z,
        (cmp_opt_chars(x, z) is Equal) <==> x == z,
        cmp_opt_chars(y, x) == cmp_flip(cmp_opt_chars(x, y)),
        cmp_opt_chars(z, y) == cmp_flip(cmp_opt_chars(y, z)),
        cmp_opt_chars(z, x) == cmp_flip(cmp_opt_chars(x, z)),
        !(cmp_opt_chars(x, y) is Greater) && !(cmp_opt_chars(y, z) is Greater) ==> !(cmp_opt_chars(
            x,
            z,
        ) is Greater),
{
    lemma_opt_chars_eq(x, y);
    lemma_opt_chars_eq(y, z);
    lemma_opt_chars_eq(x, z);
    lemma_opt_chars_flip(x, y);
    lemma_opt_chars_flip(y, z);
    lemma_opt_chars_flip(x, z);
    if !(cmp_opt_chars(x, y) is Greater) && !(cmp_opt_chars(y, z) is Greater) {
        lemma_opt_chars_trans_le(x, y, z);
    }
}

impl TrackFile {
    pub open spec fn selectable_spec(self) -> bool {
        !self.is_album_padding
    }
}

impl Listable for TrackFile {
    open spec fn cmp_spec(self, other: Self) -> Cmp {
        track_cmp(self, other)
    }

    open spec fn selectable(self) -> bool {
        self.selectable_spec()
    }

    proof fn cmp_flip_law(a: Self, b: Self) {
        lemma_opt_chars_flip(opt_lower(a.album_artist), opt_lower(b.album_artist));
        lemma_opt_chars_flip(opt_lower(a.album_title), opt_lower(b.album_title));
    }

    proof fn cmp_trans_law(a: Self, b: Self, c: Self) {
        lemma_opt_chars_order3(
            opt_lower(a.album_artist),
            opt_lower(b.album_artist),
            opt_lower(c.album_artist),
        );
        lemma_opt_chars_order3(
            opt_lower(a.album_title),
            opt_lower(b.album_title),
            opt_lower(c.album_title),
        );
    }

    proof fn cmp_congruence_law(a: Self, b: Self, c: Self) {
        lemma_opt_chars_order3(
            opt_lower(a.album_artist),
            opt_lower(b.album_artist),
            opt_lower(c.album_artist),
        );
        lemma_opt_chars_order3(
            opt_lower(a.album_title),
            opt_lower(b.album_title),
            opt_lower(c.album_title),
        );
    }

    fn compare(&self, other: &Self) -> (c: Cmp) {
        let c1 = cmp_opt_u16(&self.year, &other.year);
        if !matches!(c1, Cmp::Equal) {
            return c1;
        }
        let c2 = cmp_opt_lower(&self.album_artist, &other.album_artist);
        if !matches!(c2, Cmp::Equal) {
            return c2;
        }
        let c3 = cmp_opt_lower(&self.album_title, &other.album_title);
        if !matches!(c3, Cmp::Equal) {
            return c3;
        }
        let c4 = cmp_opt_u8(&self.album_number, &other.album_number);
        if !matches!(c4, Cmp::Equal) {
            return c4;
        }
        let c5 = cmp_bool_exec(!self.is_album_padding, !other.is_album_padding);
        if !matches!(c5, Cmp::Equal) {
            return c5;
        }
        cmp_opt_u8(&self.track_number, &other.track_number)
    }

    fn is_selectable(&self) -> (b: bool) {
        !self.is_album_padding
    }

    fn duplicate(&self) -> (r: Self) {
        TrackFile {
            is_album_padding: self.is_album_padding,
            id_artist: self.id_artist,
            id_album: self.id_album,
            id_track: self.id_track,
            duration: self.duration,
            year: self.year,
            album_artist: clone_opt_string(&self.album_artist),
            album_title: clone_opt_string(&self.album_title),
            album_number: self.album_number,
            track_artist: clone_opt_string(&self.track_artist),
            track_title: self.track_title.clone(),
            track_number: self.track_number,
        }
    }
}

fn clone_opt_string(o: &Option<String>) -> (r: Option<String>)
    ensures
        r == *o,
{
    match o {
        Option::Some(s) => Option::Some(s.clone()),
        Option::None => Option::None,
    }
}

fn cmp_opt_u16(a: &Option<u16>, b: &Option<u16>) -> (c: Cmp)
    ensures
        c == cmp_opt_int(opt_u16_int(*a), opt_u16_int(*b)),
{
    match (a, b) {
        (Option::None, Option::None) => Cmp::Equal,
        (Option::None, Option::Some(_)) => Cmp::Less,
        (Option::Some(_), Option::None) => Cmp::Greater,
        (Option::Some(x), Option::Some(y)) => {
            if *x < *y {
                Cmp::Less
            } else if *x == *y {
                Cmp::Equal
            } else {
                Cmp::Greater
            }
        },
    }
}

fn cmp_opt_u8(a: &Option<u8>, b: &Option<u8>) -> (c: Cmp)
    ensures
        c == cmp_opt_int(opt_u8_int(*a), opt_u8_int(*b)),
{
    match (a, b) {
        (Option::None, Option::None) => Cmp::Equal,
        (Option::None, Option::Some(_)) => Cmp::Less,
        (Option::Some(_), Option::None) => Cmp::Greater,
        (Option::Some(x), Option::Some(y)) => {
            if *x < *y {
                Cmp::Less
            } else if *x == *y {
                Cmp::Equal
            } else {
                Cmp::Greater
            }
        },
    }
}

fn cmp_bool_exec(a: bool, b: bool) -> (c: Cmp)
    ensures
        c == cmp_bool(a, b),
{
    if a == b {
        Cmp::Equal
    } else if !a {
        Cmp::Less
    } else {
        Cmp::Greater
    }
}

pub(crate) fn cmp_chars_vec(a: &Vec<char>, b: &Vec<char>) -> (c: Cmp)
    ensures
        c == lex_cmp(a@, b@),
{
    let ghost sa = a@;
    let ghost sb = b@;
    let mut i: usize = 0;
    proof {
        assert(sa.skip(0) =~= sa);
        assert(sb.skip(0) =~= sb);
    }
    loop
        invariant
            a@ == sa,
            b@ == sb,
            i <= sa.len(),
            i <= sb.len(),
            lex_cmp(sa, sb) == lex_cmp(sa.skip(i as int), sb.skip(i as int)),
        decreases sa.len() - i,
    {
        if i >= a.len() && i >= b.len() {
            return Cmp::Equal;
        }
        if i >= a.len() {
            return Cmp::Less;
        }
        if i >= b.len() {
            return Cmp::Greater;
        }
        let ca = a[i];
        let cb = b[i];
        proof {
            assert(sa.skip(i as int)[0] == sa[i as int]);
            assert(sb.skip(i as int)[0] == sb[i as int]);
        }
        if ca < cb {
            return Cmp::Less;
        }
        if ca > cb {
            return Cmp::Greater;
        }
        proof {
            assert(sa.skip(i as int).drop_first() =~= sa.skip(i as int + 1));
            assert(sb.skip(i as int).drop_first() =~= sb.skip(i as int + 1));
        }
        i = i + 1;
    }
}

pub(crate) fn cmp_opt_lower(a: &Option<String>, b: &Option<String>) -> (c: Cmp)
    ensures
        c == cmp_opt_chars(opt_lower(*a), opt_lower(*b)),
{
    match (a, b) {
        (Option::None, Option::None) => Cmp::Equal,
        (Option::None, Option::Some(_)) => Cmp::Less,
        (Option::Some(_), Option::None) => Cmp::Greater,
        (Option::Some(x), Option::Some(y)) => {
            let lx = lowercase_chars(x.as_str());
            let ly = lowercase_chars(y.as_str());
            cmp_chars_vec(&lx, &ly)
        },
    }
}

/// `text` cut to at most `limit` characters, a `>` marking the cut.
pub open spec fn spec_str_trunc(s: Seq<char>, limit: int) -> Seq<char> {
    if s.len() > limit {
        s.take(limit - 1) + seq!['>']
    } else {
        s
    }
}

/// Bound a tag value to `limit` characters, marking a cut with `>`.
pub fn str_trunc(text: &String, limit: usize) -> (r: String)
    requires
        limit >= 1,
    ensures
        r@ == spec_str_trunc(text@, limit as int),
{
    let cs = str_chars(text.as_str());
    if cs.len() <= limit {
        return text.clone();
    }
    let mut out: Vec<char> = Vec::new();
    let mut i: usize = 0;
    while i < limit - 1
        invariant
            cs@ == text@,
            limit - 1 <= text@.len(),
            i <= limit - 1,
            out@ == text@.take(i as int),
        decreases limit - i,
    {
        out.push(cs[i]);
        proof {
            assert(out@ =~= text@.take(i + 1));
        }
        i = i + 1;
    }
    out.push('>');
    proof {
        assert(out@ =~= spec_str_trunc(text@, limit as int));
    }
    chars_string(&out)
}

fn opt_str_trunc(o: &Option<String>, limit: usize) -> (r: Option<String>)
    requires
        limit >= 1,
    ensures
        match (*o, r) {
            (Option::Some(s), Option::Some(t)) => t@ == spec_str_trunc(s@, limit as int),
            (Option::None, Option::None) => true,
            _ => false,
        },
{
    match o {
        Option::Some(s) => Option::Some(str_trunc(s, limit)),
        Option::None => Option::None,
    }
}

impl TrackFile {
    /// Build a track from the plain tag values read out of an audio file.
    /// The title falls back to the file name stem; the album artist falls
    /// back to the track artist when the tag is absent or empty; the three
    /// ids are hashes of the lowercased album artist, of the artist id with
    /// the lowercased album title, and of the lowercased path.
    pub fn new(
        path: &String,
        duration: TimeSpan,
        year: Option<u16>,
        artist_tag: Option<String>,
        title_tag: Option<String>,
        file_stem: String,
        track_number: Option<u8>,
        album_artist_tag: Option<String>,
        album_title_tag: Option<String>,
        album_number: Option<u8>,
    ) -> (r: TrackFile)
        ensures
            r.is_album_padding == false,
            r.duration == duration,
            r.year == year,
            r.album_number == album_number,
            r.track_number == track_number,
            match (artist_tag, r.track_artist) {
                (Option::Some(s), Option::Some(t)) => t@ == spec_str_trunc(s@, 64),
                (Option::None, Option::None) => true,
                _ => false,
            },
            r.track_title@ == match title_tag {
                Option::Some(t) => spec_str_trunc(t@, 128),
                Option::None => file_stem@,
            },
            ({
                let aa = match album_artist_tag {
                    Option::Some(s) => if s@.len() > 0 {
                        Option::Some(spec_str_trunc(s@, 64))
                    } else {
                        match artist_tag {
                            Option::Some(t) => Option::Some(spec_str_trunc(t@, 64)),
                            Option::None => Option::None,
                        }
                    },
                    Option::None => match artist_tag {
                        Option::Some(t) => Option::Some(spec_str_trunc(t@, 64)),
                        Option::None => Option::None,
                    },
                };
                &&& opt_lower(r.album_artist) == match aa {
                    Option::Some(s) => Option::Some(lower_of(s)),
                    Option::None => Option::None,
                }
                &&& r.id_artist == spec_hash(
                    lower_of(
                        match aa {
                            Option::Some(s) => s,
                            Option::None => Seq::<char>::empty(),
                        },
                    ),
                )
            }),
            match (album_title_tag, r.album_title) {
                (Option::Some(s), Option::Some(t)) => s@.len() > 0 && t@ == spec_str_trunc(s@, 64),
                (Option::Some(s), Option::None) => s@.len() == 0,
                (Option::None, Option::None) => true,
                _ => false,
            },
            r.id_album == spec_hash_pair(
                r.id_artist,
                lower_of(
                    match r.album_title {
                        Option::Some(t) => t@,
                        Option::None => Seq::<char>::empty(),
                    },
                ),
            ),
            r.id_track == spec_hash(lower_of(path@)),
    {
        let track_artist = opt_str_trunc(&artist_tag, 64);
        let track_title = match title_tag {
            Option::Some(t) => str_trunc(&t, 128),
            Option::None => file_stem,
        };
        let album_artist = match &album_artist_tag {
            Option::Some(s) => {
                if !s.as_str().is_empty() {
                    Option::Some(str_trunc(s, 64))
                } else {
                    clone_opt_string(&track_artist)
                }
            },
            Option::None => clone_opt_string(&track_artist),
        };
        let album_title = match &album_title_tag {
            Option::Some(s) => {
                if !s.as_str().is_empty() {
                    Option::Some(str_trunc(s, 64))
                } else {
                    Option::None
                }
            },
            Option::None => Option::None,
        };
        let aa_lower = match &album_artist {
            Option::Some(s) => lowercase_chars(s.as_str()),
            Option::None => lowercase_chars(""),
        };
        proof {
            reveal_strlit("");
            assert(""@ =~= Seq::<char>::empty());
        }
        let id_artist = hash(&aa_lower);
        let at_lower = match &album_title {
            Option::Some(s) => lowercase_chars(s.as_str()),
            Option::None => lowercase_chars(""),
        };
        let id_album = hash_list(id_artist, &at_lower);
        let path_lower = lowercase_chars(path.as_str());
        let id_track = hash(&path_lower);
        TrackFile {
            is_album_padding: false,
            id_artist,
            id_album,
            id_track,
            duration,
            year,
            album_artist,
            album_title,
            album_number,
            track_artist,
            track_title,
            track_number,
        }
    }
}

/// One artist row of the filter column.
#[derive(Clone, Debug, PartialEq, Eq)]
pub struct LibraryArtistEntry {
    pub artist_id: u64,
    pub name_compare: Option<String>,
    pub name_display: Option<String>,
}

/// The sort key of an artist name: lowercased, with a leading "the "
/// stripped.
pub open spec fn artist_sort_key(name: Seq<char>) -> Seq<char> {
    let l = lower_of(name);
    if l.len() >= 4 && l[0] == 't' && l[1] == 'h' && l[2] == 'e' && l[3] == ' ' {
        l.skip(4)
    } else {
        l
    }
}

impl LibraryArtistEntry {
    /// The filter row for the artist a track belongs to.
    pub fn from_track(track: &TrackFile) -> (r: LibraryArtistEntry)
        ensures
            r.artist_id == track.id_artist,
            r.name_display == track.album_artist,
            match (track.album_artist, r.name_compare) {
                (Option::Some(s), Option::Some(t)) => t@ == artist_sort_key(s@),
                (Option::None, Option::None) => true,
                _ => false,
            },
    {
        let name_compare = match &track.album_artist {
            Option::Some(aa) => {
                let l = lowercase_chars(aa.as_str());
                let stripped = if l.len() >= 4 && l[0] == 't' && l[1] == 'h' && l[2] == 'e' && l[3]
                    == ' ' {
                    let mut out: Vec<char> = Vec::new();
                    let mut i: usize = 4;
                    while i < l.len()
                        invariant
                            4 <= i <= l@.len(),
                            out@ == l@.subrange(4, i as int),
                        decreases l@.len() - i,
                    {
                        out.push(l[i]);
                        proof {
                            assert(out@ =~= l@.subrange(4, i + 1));
                        }
                        i = i + 1;
                    }
                    proof {
                        assert(out@ =~= l@.skip(4));
                    }
                    out
                } else {
                    l
                };
                Option::Some(chars_string(&stripped))
            },
            Option::None => Option::None,
        };
        LibraryArtistEntry {
            artist_id: track.id_artist,
            name_display: clone_opt_string(&track.album_artist),
            name_compare,
        }
    }
}

pub open spec fn opt_view(o: Option<String>) -> Option<Seq<char>> {
    match o {
        Option::Some(s) => Option::Some(s@),
        Option::None => Option::None,
    }
}

/// Artists order by their sort name alone.
pub open spec fn artist_cmp(a: LibraryArtistEntry, b: LibraryArtistEntry) -> Cmp {
    cmp_opt_chars(opt_view(a.name_compare), opt_view(b.name_compare))
}

/// One row of the filter column: everything, one artist, or one year.
#[derive(Clone, Debug, PartialEq, Eq)]
pub enum LibraryFilterEntry {
    All,
    Artist(LibraryArtistEntry),
    Year { year: Option<u16> },
}

pub open spec fn filter_rank(e: LibraryFilterEntry) -> int {
    match e {
        LibraryFilterEntry::All => 0,
        LibraryFilterEntry::Artist(_) => 1,
        LibraryFilterEntry::Year { .. } => 2,
    }
}

/// Filter rows order `All` first, then artists by sort name, then years
/// numerically, a missing year first.
pub open spec fn filter_cmp(a: LibraryFilterEntry, b: LibraryFilterEntry) -> Cmp {
    cmp_chain(
        cmp_int(filter_rank(a), filter_rank(b)),
        match (a, b) {
            (LibraryFilterEntry::Artist(x), LibraryFilterEntry::Artist(y)) => artist_cmp(x, y),
            (LibraryFilterEntry::Year { year: x }, LibraryFilterEntry::Year { year: y }) => {
                cmp_opt_int(opt_u16_int(x), opt_u16_int(y))
            },
            _ => Cmp::Equal,
        },
    )
}

impl Listable for LibraryFilterEntry {
    open spec fn cmp_spec(self, other: Self) -> Cmp {
        filter_cmp(self, other)
    }

    open spec fn selectable(self) -> bool {
        true
    }

    proof fn cmp_flip_law(a: Self, b: Self) {
        if let (LibraryFilterEntry::Artist(x), LibraryFilterEntry::Artist(y)) = (a, b) {
            lemma_opt_chars_flip(opt_view(x.name_compare), opt_view(y.name_compare));
        }
    }

    proof fn cmp_trans_law(a: Self, b: Self, c: Self) {
        if let (
            LibraryFilterEntry::Artist(x),
            LibraryFilterEntry::Artist(y),
            LibraryFilterEntry::Artist(z),
        ) = (a, b, c) {
            lemma_opt_chars_order3(
                opt_view(x.name_compare),
                opt_view(y.name_compare),
                opt_view(z.name_compare),
            );
        }
    }

    proof fn cmp_congruence_law(a: Self, b: Self, c: Self) {
        match (a, b) {
            (LibraryFilterEntry::Artist(x), LibraryFilterEntry::Artist(y)) => {
                lemma_opt_chars_eq(opt_view(x.name_compare), opt_view(y.name_compare));
                if let LibraryFilterEntry::Artist(z) = c {
                    lemma_opt_chars_order3(
                        opt_view(x.name_compare),
                        opt_view(y.name_compare),
                        opt_view(z.name_compare),
                    );
                }
            },
            _ => {},
        }
    }

    fn compare(&self, other: &Self) -> (c: Cmp) {
        match (self, other) {
            (LibraryFilterEntry::All, LibraryFilterEntry::All) => Cmp::Equal,
            (LibraryFilterEntry::All, _) => Cmp::Less,
            (_, LibraryFilterEntry::All) => Cmp::Greater,
            (LibraryFilterEntry::Artist(x), LibraryFilterEntry::Artist(y)) => {
                match (&x.name_compare, &y.name_compare) {
                    (Option::None, Option::None) => Cmp::Equal,
                    (Option::None, Option::Some(_)) => Cmp::Less,
                    (Option::Some(_), Option::None) => Cmp::Greater,
                    (Option::Some(sx), Option::Some(sy)) => {
                        let vx = str_chars(sx.as_str());
                        let vy = str_chars(sy.as_str());
                        cmp_chars_vec(&vx, &vy)
                    },
                }
            },
            (LibraryFilterEntry::Artist(_), LibraryFilterEntry::Year { .. }) => Cmp::Less,
            (LibraryFilterEntry::Year { .. }, LibraryFilterEntry::Artist(_)) => Cmp::Greater,
            (LibraryFilterEntry::Year { year: x }, LibraryFilterEntry::Year { year: y }) => {
                cmp_opt_u16(x, y)
            },
        }
    }

    fn is_selectable(&self) -> (b: bool) {
        true
    }

    fn duplicate(&self) -> (r: Self) {
        match self {
            LibraryFilterEntry::All => LibraryFilterEntry::All,
            LibraryFilterEntry::Artist(x) => LibraryFilterEntry::Artist(
                LibraryArtistEntry {
                    artist_id: x.artist_id,
                    name_compare: clone_opt_string(&x.name_compare),
                    name_display: clone_opt_string(&x.name_display),
                },
            ),
            LibraryFilterEntry::Year { year } => LibraryFilterEntry::Year { year: *year },
        }
    }
}

/// What the filter column shows for an entry: `ALL`, the artist's display
/// name (`<missing>` when it has none), or the year (`----` when unknown).
pub open spec fn spec_filter_name(e: LibraryFilterEntry) -> Seq<char> {
    match e {
        LibraryFilterEntry::All => "ALL"@,
        LibraryFilterEntry::Artist(a) => match a.name_display {
            Option::Some(name) => name@,
            Option::None => "<missing>"@,
        },
        LibraryFilterEntry::Year { year } => match year {
            Option::Some(y) => dec_chars(y as int),
            Option::None => "----"@,
        },
    }
}

impl LibraryFilterEntry {
    pub fn name(&self) -> (r: String)
        ensures
            r@ == spec_filter_name(*self),
    {
        match self {
            LibraryFilterEntry::All => String::from_str("ALL"),
            LibraryFilterEntry::Artist(a) => match &a.name_display {
                Option::Some(name) => name.clone(),
                Option::None => String::from_str("<missing>"),
            },
            LibraryFilterEntry::Year { year } => match year {
                Option::Some(y) => {
                    let mut out: Vec<char> = Vec::new();
                    push_dec(&mut out, *y as u64);
                    proof {
                        assert(out@ =~= dec_chars(*y as int));
                    }
                    chars_string(&out)
                },
                Option::None => String::from_str("----"),
            },
        }
    }
}

} // verus!
