use vstd::prelude::*;
use vstd::string::*;

use crate::records::{joined_names, Track, TrackView};

verus! {

/// The line printed after each track.
pub open spec fn separator() -> Seq<char> {
    "---------"@
}

/// What a sequence of output lines holds, line by line.
pub open spec fn lines_view(lines: Seq<String>) -> Seq<Seq<char>> {
    lines.map_values(|l: String| l@)
}

/// The five lines printed for one track: its name, its album's name, the
/// album's artist names run together, the track's own web link, and the
/// separator.
pub open spec fn track_block(t: TrackView) -> Seq<Seq<char>> {
    seq![t.name, t.album.name, joined_names(t.album.artists), t.link, separator()]
}

/// The lines printed for the given tracks: one block per track, in order.
pub open spec fn track_lines_of(tracks: Seq<TrackView>) -> Seq<Seq<char>>
    decreases tracks.len(),
{
    if tracks.len() == 0 {
        Seq::empty()
    } else {
        track_lines_of(tracks.drop_last()) + track_block(tracks.last())
    }
}

/// Builds the lines printed for the matched tracks, in the order given.
pub fn track_lines(tracks: &Vec<Track>) -> (r: Vec<String>)
    ensures
        lines_view(r@) == track_lines_of(tracks@.map_values(|t: Track| t@)),
{
    let ghost all = tracks@.map_values(|t: Track| t@);
    let mut r: Vec<String> = Vec::new();
    let mut i: usize = 0;
    while i < tracks.len()
        invariant
            i <= tracks@.len(),
            all == tracks@.map_values(|t: Track| t@),
            lines_view(r@) == track_lines_of(all.take(i as int)),
        decreases tracks@.len() - i,
    {
        let track = &tracks[i];
        let ghost before = r@;
        r.push(track.name.clone());
        r.push(track.album.name.clone());
        r.push(track.album.artist_names());
        r.push(track.external_urls.spotify.clone());
        r.push(String::from_str("---------"));
        proof {
            assert(all.take(i + 1).drop_last() =~= all.take(i as int));
            assert(lines_view(r@) =~= lines_view(before) + track_block(all[i as int]));
        }
        i = i + 1;
    }
    proof {
        assert(all.take(i as int) =~= all);
    }
    r
}

/// The printed lines fall into one block of five per track, in the order of
/// the tracks, and the fifth line of every block is nine dashes.
pub proof fn lemma_track_lines_blocks(tracks: Seq<TrackView>)
    ensures
        track_lines_of(tracks).len() == 5 * tracks.len(),
        forall|i: int|
            0 <= i < tracks.len() ==> track_lines_of(tracks).subrange(5 * i, 5 * i + 5)
                == #[trigger] track_block(tracks[i]),
        separator() =~= seq!['-', '-', '-', '-', '-', '-', '-', '-', '-'],
    decreases tracks.len(),
{
    reveal_strlit("---------");
    if tracks.len() > 0 {
        let init = tracks.drop_last();
        lemma_track_lines_blocks(init);
        let lines = track_lines_of(tracks);
        let n = tracks.len() - 1;
        assert forall|i: int| 0 <= i < tracks.len() implies lines.subrange(5 * i, 5 * i + 5)
            == #[trigger] track_block(tracks[i]) by {
            if i < n {
                assert(tracks[i] == init[i]);
                assert(lines.subrange(5 * i, 5 * i + 5) =~= track_lines_of(init).subrange(
                    5 * i,
                    5 * i + 5,
                ));
            } else {
                assert(lines.subrange(5 * i, 5 * i + 5) =~= track_block(tracks.last()));
            }
        }
    }
}

} // verus!
