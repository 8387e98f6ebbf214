//! The catalogue's data: artists, albums, songs, playlists, users, and the paging
//! of long song lists.
use vstd::prelude::*;
use vstd::std_specs::cmp::PartialEqSpec;
use crate::text::{seq_join, decimal, decimal_pad2, push_char, push_decimal, push_decimal_pad2, join_strings};
use crate::list_items::{
    AlbumModel, AlbumModelView, SongModel, SongModelView, opt_text, duration_text, format_duration,
};

verus! {

#[derive(Clone, Debug)]
pub struct UserRef {
    pub id: String,
    pub display_name: String,
}

#[derive(Clone, Debug)]
pub struct ArtistRef {
    pub id: String,
    pub name: String,
}

#[derive(Clone, Debug)]
pub struct AlbumRef {
    pub id: String,
    pub name: String,
}

#[derive(Clone, Debug)]
pub struct SearchResults {
    pub albums: Vec<AlbumDescription>,
    pub artists: Vec<ArtistSummary>,
}

#[derive(Clone, Debug)]
pub struct AlbumDescription {
    pub id: String,
    pub title: String,
    pub artists: Vec<ArtistRef>,
    pub art: Option<String>,
    pub songs: Vec<SongDescription>,
    pub is_liked: bool,
}

#[derive(Clone, Debug)]
pub struct AlbumInfo {
    pub id: String,
    pub label: String,
    pub release_date: String,
    pub copyrights: Vec<Copyright>,
}

#[derive(Clone, Debug)]
pub struct Copyright {
    pub text: String,
    pub type_: char,
}

#[derive(Clone, Debug)]
pub struct PlaylistDescription {
    pub id: String,
    pub title: String,
    pub art: Option<String>,
    pub songs: Vec<SongDescription>,
    pub last_batch: Batch,
    pub owner: UserRef,
}

#[derive(Clone, Debug)]
pub struct PlaylistSummary {
    pub id: String,
    pub title: String,
}

#[derive(Clone, Debug)]
pub struct SongDescription {
    pub id: String,
    pub uri: String,
    pub title: String,
    pub artists: Vec<ArtistRef>,
    pub album: AlbumRef,
    pub duration: u32,
    pub art: Option<String>,
}

/// One page of a long list: where it starts, how many items a page holds, and
/// how many items the whole list has.
#[derive(Clone, Copy, Debug)]
pub struct Batch {
    pub offset: usize,
    pub batch_size: usize,
    pub total: usize,
}

#[derive(Clone, Debug)]
pub struct SongBatch {
    pub songs: Vec<SongDescription>,
    pub batch: Batch,
}

#[derive(Clone, Debug)]
pub struct ArtistDescription {
    pub id: String,
    pub name: String,
    pub albums: Vec<AlbumDescription>,
    pub top_tracks: Vec<SongDescription>,
}

#[derive(Clone, Debug)]
pub struct ArtistSummary {
    pub id: String,
    pub name: String,
    pub photo: Option<String>,
}

#[derive(Clone, Debug)]
pub struct UserDescription {
    pub id: String,
    pub name: String,
    pub playlists: Vec<PlaylistDescription>,
}

// ---------------------------------------------------------------------------
// Artist names

/// The separator between artists' names: ", ".
pub open spec fn name_separator() -> Seq<char> {
    seq![',', ' ']
}

/// The artists' names, in order.
pub open spec fn artist_names(artists: Seq<ArtistRef>) -> Seq<Seq<char>> {
    artists.map_values(|a: ArtistRef| a.name@)
}

/// The artists' names joined by ", ".
pub open spec fn joined_artist_names(artists: Seq<ArtistRef>) -> Seq<char> {
    seq_join(artist_names(artists), name_separator())
}

/// Joins the artists' names with ", ".
pub fn join_artist_names(artists: &Vec<ArtistRef>) -> (r: String)
    ensures
        r@ == joined_artist_names(artists@),
{
    let mut names: Vec<String> = Vec::new();
    let mut i: usize = 0;
    while i < artists.len()
        invariant
            i <= artists.len(),
            names@.len() == i,
            forall|j: int| 0 <= j < i ==> #[trigger] names@[j]@ == artists@[j].name@,
        decreases artists.len() - i,
    {
        names.push(artists[i].name.clone());
        i = i + 1;
    }
    assert(names@.map_values(|p: String| p@) =~= artist_names(artists@));
    proof {
        reveal_strlit(", ");
    }
    assert(", "@ =~= name_separator());
    join_strings(&names, ", ")
}

// ---------------------------------------------------------------------------
// Durations

/// The sum of the songs' durations, in milliseconds.
pub open spec fn total_duration(songs: Seq<SongDescription>) -> nat
    decreases songs.len(),
{
    if songs.len() == 0 {
        0
    } else {
        total_duration(songs.drop_last()) + songs.last().duration as nat
    }
}

/// The total of a list of songs is at least the total of any of its prefixes.
pub proof fn lemma_total_duration_prefix(songs: Seq<SongDescription>, i: int, j: int)
    requires
        0 <= i <= j <= songs.len(),
    ensures
        total_duration(songs.take(i)) <= total_duration(songs.take(j)),
    decreases j - i,
{
    if i < j {
        lemma_total_duration_prefix(songs, i, j - 1);
        assert(songs.take(j).drop_last() =~= songs.take(j - 1));
    }
}

/// Hours, minutes and seconds of a duration in milliseconds, as in "1:02:03 + 4ms",
/// or "2:03 + 4ms" when it is under an hour.
pub open spec fn long_duration_text(total: nat) -> Seq<char> {
    let millis = total % 1000;
    let secs = total / 1000;
    let seconds = secs % 60;
    let minutes = (secs / 60) % 60;
    let hours = secs / 60 / 60;
    let tail = seq![':'] + decimal_pad2(seconds) + seq![' ', '+', ' '] + decimal(millis) + seq!['m', 's'];
    if hours > 0 {
        decimal(hours) + seq![':'] + decimal_pad2(minutes) + tail
    } else {
        decimal(minutes) + tail
    }
}

// ---------------------------------------------------------------------------
// Copyright lines

/// One copyright notice: its type in brackets, then its text, as in "[C] 2020 Label".
pub open spec fn copyright_line(c: Copyright) -> Seq<char> {
    seq!['[', c.type_, ']', ' '] + c.text@
}

/// The separator between copyright notices: a comma, a line break and a space.
pub open spec fn copyright_separator() -> Seq<char> {
    seq![',', '\n', ' ']
}

/// All copyright notices, in order, joined by the separator.
pub open spec fn copyrights_text(cs: Seq<Copyright>) -> Seq<char> {
    seq_join(cs.map_values(|c: Copyright| copyright_line(c)), copyright_separator())
}

// ---------------------------------------------------------------------------
// Paging

/// The page after `b`: it starts where `b` ends and exists only while it starts
/// before the end of the list.
pub open spec fn next_batch(b: Batch) -> Option<Batch> {
    let offset = b.offset + b.batch_size;
    if offset < b.total {
        Some(Batch { offset: offset as usize, batch_size: b.batch_size, total: b.total })
    } else {
        None
    }
}

impl Batch {
    /// The next page of the list, if the list goes on past this one.
    pub fn next(self) -> (r: Option<Batch>)
        requires
            self.offset + self.batch_size <= usize::MAX,
        ensures
            r == next_batch(self),
            r is Some <==> self.offset + self.batch_size < self.total,
            r matches Some(n) ==> n.offset == self.offset + self.batch_size && n.batch_size
                == self.batch_size && n.total == self.total,
    {
        let offset = self.offset + self.batch_size;
        let b = Batch { offset, batch_size: self.batch_size, total: self.total };
        if b.offset < self.total {
            Some(b)
        } else {
            None
        }
    }
}

// ---------------------------------------------------------------------------
// Albums

impl AlbumDescription {
    /// The album's artists' names, joined by ", ".
    pub fn artists_name(&self) -> (r: String)
        ensures
            r@ == joined_artist_names(self.artists@),
    {
        join_artist_names(&self.artists)
    }

    /// The album's running time, the sum of its songs' durations, as
    /// "h:mm:ss + Nms", or "m:ss + Nms" when it is under an hour.
    pub fn formatted_time(&self) -> (r: String)
        requires
            total_duration(self.songs@) <= u32::MAX,
        ensures
            r@ == long_duration_text(total_duration(self.songs@)),
    {
        let mut total: u32 = 0;
        let mut i: usize = 0;
        while i < self.songs.len()
            invariant
                i <= self.songs.len(),
                total == total_duration(self.songs@.take(i as int)),
                total_duration(self.songs@) <= u32::MAX,
            decreases self.songs.len() - i,
        {
            proof {
                lemma_total_duration_prefix(self.songs@, i + 1, self.songs@.len() as int);
                assert(self.songs@.take(self.songs@.len() as int) =~= self.songs@);
                assert(self.songs@.take(i + 1).drop_last() =~= self.songs@.take(i as int));
            }
            total = total + self.songs[i].duration;
            i = i + 1;
        }
        assert(self.songs@.take(self.songs@.len() as int) =~= self.songs@);
        let t: u64 = total as u64;
        let millis = t % 1000;
        let secs = t / 1000;
        let seconds = secs % 60;
        let minutes = (secs / 60) % 60;
        let hours = secs / 60 / 60;
        let mut s = String::new();
        if hours > 0 {
            push_decimal(&mut s, hours);
            push_char(&mut s, ':');
            push_decimal_pad2(&mut s, minutes);
        } else {
            push_decimal(&mut s, minutes);
        }
        push_char(&mut s, ':');
        push_decimal_pad2(&mut s, seconds);
        push_char(&mut s, ' ');
        push_char(&mut s, '+');
        push_char(&mut s, ' ');
        push_decimal(&mut s, millis);
        push_char(&mut s, 'm');
        push_char(&mut s, 's');
        assert(s@ =~= long_duration_text(t as nat));
        s
    }
}

impl AlbumInfo {
    /// All copyright notices as "[type] text", joined by a comma, a line break and a space.
    pub fn copyrights(&self) -> (r: String)
        ensures
            r@ == copyrights_text(self.copyrights@),
    {
        let mut lines: Vec<String> = Vec::new();
        let mut i: usize = 0;
        while i < self.copyrights.len()
            invariant
                i <= self.copyrights.len(),
                lines@.len() == i,
                forall|j: int| 0 <= j < i ==> #[trigger] lines@[j]@ == copyright_line(self.copyrights@[j]),
            decreases self.copyrights.len() - i,
        {
            let c = &self.copyrights[i];
            let mut line = String::new();
            push_char(&mut line, '[');
            push_char(&mut line, c.type_);
            push_char(&mut line, ']');
            push_char(&mut line, ' ');
            line.append(c.text.as_str());
            assert(line@ =~= copyright_line(*c));
            lines.push(line);
            i = i + 1;
        }
        assert(lines@.map_values(|p: String| p@) =~= self.copyrights@.map_values(
            |c: Copyright| copyright_line(c),
        ));
        proof {
            reveal_strlit(",\n ");
        }
        assert(",\n "@ =~= copyright_separator());
        join_strings(&lines, ",\n ")
    }
}

// ---------------------------------------------------------------------------
// Songs

/// What a song looks like as the item at `position` (0-based) of a list:
/// its place is counted from 1 and kept as a 32-bit number.
pub open spec fn song_item(song: SongDescription, position: usize) -> SongModelView {
    SongModelView {
        id: song.id@,
        index: (position + 1) as u32,
        title: song.title@,
        artist: joined_artist_names(song.artists@),
        duration: duration_text(song.duration as nat),
    }
}

impl SongDescription {
    /// The song's artists' names, joined by ", ".
    pub fn artists_name(&self) -> (r: String)
        ensures
            r@ == joined_artist_names(self.artists@),
    {
        join_artist_names(&self.artists)
    }

    /// The song as the list item at `position` (0-based).
    pub fn to_song_model(&self, position: usize) -> (r: SongModel)
        requires
            position < usize::MAX,
        ensures
            r@ == song_item(*self, position),
            position < u32::MAX ==> r.index == position + 1,
            r.id@ == self.id@,
            r.title@ == self.title@,
            r.artist@ == joined_artist_names(self.artists@),
            r.duration@ == duration_text(self.duration as nat),
    {
        let index = (position + 1) as u32;
        let artist = self.artists_name();
        let duration = format_duration(self.duration);
        SongModel::new(self.id.as_str(), index, self.title.as_str(), artist.as_str(), duration.as_str())
    }
}

// ---------------------------------------------------------------------------
// Album identity and album items

/// Two album descriptions describe the same album when their ids are equal.
impl PartialEq for AlbumDescription {
    fn eq(&self, other: &AlbumDescription) -> (r: bool)
        ensures
            r == (self.id@ == other.id@),
    {
        self.id == other.id
    }
}

impl Eq for AlbumDescription {}

impl vstd::std_specs::cmp::PartialEqSpecImpl for AlbumDescription {
    open spec fn obeys_eq_spec() -> bool {
        true
    }

    open spec fn eq_spec(&self, other: &AlbumDescription) -> bool {
        self.id@ == other.id@
    }
}

/// What an album looks like as a list item.
pub open spec fn album_item(album: AlbumDescription) -> AlbumModelView {
    AlbumModelView {
        artist: joined_artist_names(album.artists@),
        album: album.title@,
        cover: opt_text(album.art),
        uri: album.id@,
    }
}

/// What a playlist looks like as a list item: its owner stands where an album's artists do.
pub open spec fn playlist_item(playlist: PlaylistDescription) -> AlbumModelView {
    AlbumModelView {
        artist: playlist.owner.display_name@,
        album: playlist.title@,
        cover: opt_text(playlist.art),
        uri: playlist.id@,
    }
}

impl AlbumModel {
    /// The album as a list item.
    pub fn from_album(album: &AlbumDescription) -> (r: AlbumModel)
        ensures
            r@ == album_item(*album),
            r.artist@ == joined_artist_names(album.artists@),
            r.album@ == album.title@,
            r.cover is Some <==> album.art is Some,
            r.cover matches Some(c) ==> c@ == album.art->0@,
            r.uri@ == album.id@,
    {
        AlbumModel::new(album.artists_name().as_str(), album.title.as_str(), &album.art, album.id.as_str())
    }

    /// The playlist as a list item.
    pub fn from_playlist(playlist: &PlaylistDescription) -> (r: AlbumModel)
        ensures
            r@ == playlist_item(*playlist),
            r.artist@ == playlist.owner.display_name@,
            r.album@ == playlist.title@,
            r.cover is Some <==> playlist.art is Some,
            r.cover matches Some(c) ==> c@ == playlist.art->0@,
            r.uri@ == playlist.id@,
    {
        AlbumModel::new(
            playlist.owner.display_name.as_str(),
            playlist.title.as_str(),
            &playlist.art,
            playlist.id.as_str(),
        )
    }
}

// The conversions below state what they return over the item's view; a `String`
// is not determined by its text in the logic, so no value-level `from_spec` is claimed.

impl<'a> From<&'a AlbumDescription> for AlbumModel {
    fn from(album: &'a AlbumDescription) -> (r: AlbumModel)
        ensures
            r@ == album_item(*album),
    {
        AlbumModel::from_album(album)
    }
}

impl<'a> vstd::std_specs::convert::FromSpecImpl<&'a AlbumDescription> for AlbumModel {
    open spec fn obeys_from_spec() -> bool {
        false
    }

    open spec fn from_spec(album: &'a AlbumDescription) -> AlbumModel {
        arbitrary()
    }
}

impl From<AlbumDescription> for AlbumModel {
    fn from(album: AlbumDescription) -> (r: AlbumModel)
        ensures
            r@ == album_item(album),
    {
        AlbumModel::from_album(&album)
    }
}

impl vstd::std_specs::convert::FromSpecImpl<AlbumDescription> for AlbumModel {
    open spec fn obeys_from_spec() -> bool {
        false
    }

    open spec fn from_spec(album: AlbumDescription) -> AlbumModel {
        arbitrary()
    }
}

impl<'a> From<&'a PlaylistDescription> for AlbumModel {
    fn from(playlist: &'a PlaylistDescription) -> (r: AlbumModel)
        ensures
            r@ == playlist_item(*playlist),
            r.artist@ == playlist.owner.display_name@,
            r.album@ == playlist.title@,
            r.cover is Some <==> playlist.art is Some,
            r.cover matches Some(c) ==> c@ == playlist.art->0@,
            r.uri@ == playlist.id@,
    {
        AlbumModel::from_playlist(playlist)
    }
}

impl<'a> vstd::std_specs::convert::FromSpecImpl<&'a PlaylistDescription> for AlbumModel {
    open spec fn obeys_from_spec() -> bool {
        false
    }

    open spec fn from_spec(playlist: &'a PlaylistDescription) -> AlbumModel {
        arbitrary()
    }
}

impl From<PlaylistDescription> for AlbumModel {
    fn from(playlist: PlaylistDescription) -> (r: AlbumModel)
        ensures
            r@ == playlist_item(playlist),
    {
        AlbumModel::from_playlist(&playlist)
    }
}

impl vstd::std_specs::convert::FromSpecImpl<PlaylistDescription> for AlbumModel {
    open spec fn obeys_from_spec() -> bool {
        false
    }

    open spec fn from_spec(playlist: PlaylistDescription) -> AlbumModel {
        arbitrary()
    }
}

// ---------------------------------------------------------------------------
// Laws

/// Album equality, which compares ids, is an equivalence: reflexive, symmetric
/// and transitive.
pub proof fn lemma_album_eq_is_equivalence(a: AlbumDescription, b: AlbumDescription, c: AlbumDescription)
    ensures
        a.eq_spec(&a),
        a.eq_spec(&b) == b.eq_spec(&a),
        a.eq_spec(&b) && b.eq_spec(&c) ==> a.eq_spec(&c),
{
}

/// The page reached from `b` after `k` calls of `next`, if the list goes on that far.
pub open spec fn batch_after(b: Batch, k: nat) -> Option<Batch>
    decreases k,
{
    if k == 0 {
        Some(b)
    } else {
        match batch_after(b, (k - 1) as nat) {
            Some(c) => next_batch(c),
            None => None,
        }
    }
}

/// Paging walks the list in steps of the page size: the page reached after `k`
/// calls of `next` keeps the page size and the total, starts `k` pages after the
/// first, and (for `k > 0`) starts before the end of the list.
pub proof fn lemma_batch_after(b: Batch, k: nat)
    ensures
        batch_after(b, k) matches Some(c) ==> {
            &&& c.offset == b.offset + k * b.batch_size
            &&& c.batch_size == b.batch_size
            &&& c.total == b.total
            &&& k > 0 ==> c.offset < c.total
        },
    decreases k,
{
    if k > 0 {
        lemma_batch_after(b, (k - 1) as nat);
        assert(b.offset + (k - 1) * b.batch_size + b.batch_size == b.offset + k * b.batch_size)
            by (nonlinear_arith);
    }
}

/// Paging with a non-empty page size ends: after more calls of `next` than the
/// list has items, there is no page left.
pub proof fn lemma_batch_paging_ends(b: Batch, k: nat)
    requires
        b.batch_size > 0,
        k > b.total,
    ensures
        batch_after(b, k) is None,
{
    lemma_batch_after(b, k);
    if batch_after(b, k) is Some {
        assert(k * b.batch_size >= k) by (nonlinear_arith)
            requires
                b.batch_size > 0,
        ;
    }
}

/// The hours, minutes, seconds and milliseconds that a running time shows add
/// back up to the running time.
pub proof fn lemma_duration_parts(total: nat)
    ensures
        ({
            let secs = total / 1000;
            let hours = secs / 60 / 60;
            let minutes = (secs / 60) % 60;
            let seconds = secs % 60;
            ((hours * 60 + minutes) * 60 + seconds) * 1000 + total % 1000 == total
        }),
{
    let secs = total / 1000;
    let mins = secs / 60;
    assert(mins == (mins / 60) * 60 + mins % 60);
    assert(secs == mins * 60 + secs % 60);
    assert(total == secs * 1000 + total % 1000);
}

/// Albums are equal exactly when their ids are: no other field (title, artists,
/// cover, songs, liked state) takes part.
pub proof fn lemma_album_eq_is_id_eq(a: AlbumDescription, b: AlbumDescription)
    ensures
        a.eq_spec(&b) <==> a.id@ == b.id@,
        forall|c: AlbumDescription| c.id@ == a.id@ ==> a.eq_spec(&c),
{
}

/// A next page exists exactly when it starts before the end of the list, however
/// few items are left; it starts one page further and keeps size and total.
pub proof fn lemma_next_batch_exists(b: Batch)
    ensures
        next_batch(b) is Some <==> b.offset + b.batch_size < b.total,
        next_batch(b) matches Some(n) ==> n.offset == b.offset + b.batch_size && n.batch_size
            == b.batch_size && n.total == b.total,
{
}

/// Paging from the start of a list reaches every page start below the total:
/// after `k` calls of `next`, the page starting at `k * batch_size`.
pub proof fn lemma_paging_reaches_every_page(b: Batch, k: nat)
    requires
        b.offset == 0,
        k * b.batch_size < b.total,
    ensures
        batch_after(b, k) == Some(Batch { offset: (k * b.batch_size) as usize, batch_size: b.batch_size, total: b.total }),
    decreases k,
{
    if k > 0 {
        assert((k - 1) * b.batch_size <= k * b.batch_size) by (nonlinear_arith)
            requires k > 0;
        assert((k - 1) * b.batch_size + b.batch_size == k * b.batch_size) by (nonlinear_arith)
            requires k > 0;
        lemma_paging_reaches_every_page(b, (k - 1) as nat);
        let prev = Batch { offset: ((k - 1) * b.batch_size) as usize, batch_size: b.batch_size, total: b.total };
        assert(prev.offset + prev.batch_size == k * b.batch_size);
        assert(next_batch(prev) == Some(Batch { offset: (k * b.batch_size) as usize, batch_size: b.batch_size, total: b.total }));
    } else {
        assert(k * b.batch_size == 0) by (nonlinear_arith)
            requires k == 0;
        assert(b == Batch { offset: (k * b.batch_size) as usize, batch_size: b.batch_size, total: b.total });
    }
}

/// An album's list item shows the album's artists, title, cover and id; a
/// playlist's shows its owner, title, cover and id. Covers are kept exactly:
/// present when the art is, with the same address.
pub proof fn lemma_list_item_fields(a: AlbumDescription, p: PlaylistDescription)
    ensures
        album_item(a).artist == joined_artist_names(a.artists@),
        album_item(a).album == a.title@,
        album_item(a).cover is Some <==> a.art is Some,
        album_item(a).cover matches Some(c) ==> c == a.art->0@,
        album_item(a).uri == a.id@,
        playlist_item(p).artist == p.owner.display_name@,
        playlist_item(p).album == p.title@,
        playlist_item(p).cover is Some <==> p.art is Some,
        playlist_item(p).cover matches Some(c) ==> c == p.art->0@,
        playlist_item(p).uri == p.id@,
{
}

/// Joining artists' names: no artists give an empty text, one artist gives its
/// name alone, and a further artist adds ", " and its name at the end.
pub proof fn lemma_joined_artist_names(artists: Seq<ArtistRef>, more: ArtistRef)
    ensures
        artists.len() == 0 ==> joined_artist_names(artists) == Seq::<char>::empty(),
        artists.len() == 1 ==> joined_artist_names(artists) == artists[0].name@,
        artists.len() >= 1 ==> joined_artist_names(artists.push(more)) == joined_artist_names(artists)
            + seq![',', ' '] + more.name@,
{
    assert(artist_names(artists.push(more)).drop_last() =~= artist_names(artists));
}

} // verus!
