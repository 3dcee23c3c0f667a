use vstd::prelude::*;

verus! {

/// One audio track of the library. The path is the track's identity.
pub struct MusicData {
    pub title: String,
    pub artist: String,
    pub album: String,
    pub duration: usize,
    pub path: String,
}

/// What is known of a track's lyrics.
pub enum Lyrics {
    /// Checked, nothing found.
    Absent,
    /// Lyrics with per-line timestamps.
    Synced(String),
    /// Lyrics without timestamps.
    Plain(String),
    /// The track is known to have no lyrics.
    Instrumental,
}

/// The kind of sidecar file a lyrics result is written to.
#[derive(Clone, Copy, PartialEq, Eq, Structural, Debug)]
pub enum SidecarKind {
    Synced,
    Plain,
}

/// Why tag data could not be turned into a track.
#[derive(Clone, Copy, PartialEq, Eq, Structural, Debug)]
pub enum TagError {
    NoTitle,
    NoArtist,
    NoAlbum,
    NoSampleRate,
}

pub open spec fn lrc_ext() -> Seq<char> {
    seq!['l', 'r', 'c']
}

pub open spec fn txt_ext() -> Seq<char> {
    seq!['t', 'x', 't']
}

impl SidecarKind {
    /// File extension of the sidecar file of this kind.
    pub fn extension(&self) -> (r: &'static str)
        ensures
            *self == SidecarKind::Synced ==> r@ == lrc_ext(),
            *self == SidecarKind::Plain ==> r@ == txt_ext(),
    {
        proof {
            reveal_strlit("lrc");
            reveal_strlit("txt");
        }
        match self {
            SidecarKind::Synced => "lrc",
            SidecarKind::Plain => "txt",
        }
    }
}

impl Lyrics {
    /// A copy of this result.
    pub fn duplicate(&self) -> (r: Lyrics)
        ensures
            r == *self,
    {
        match self {
            Lyrics::Absent => Lyrics::Absent,
            Lyrics::Synced(t) => Lyrics::Synced(t.clone()),
            Lyrics::Plain(t) => Lyrics::Plain(t.clone()),
            Lyrics::Instrumental => Lyrics::Instrumental,
        }
    }

    /// Synced and instrumental results are final: nothing better can be fetched.
    pub open spec fn is_final(&self) -> bool {
        self is Synced || self is Instrumental
    }

    /// Whether a fetch of the whole visible set should retry this track.
    pub fn is_retry_candidate(&self) -> (r: bool)
        ensures
            r == !self.is_final(),
    {
        match self {
            Lyrics::Absent | Lyrics::Plain(_) => true,
            _ => false,
        }
    }

    /// How good a result is: nothing, plain text, then final results.
    pub open spec fn rank(&self) -> nat {
        match self {
            Lyrics::Absent => 0,
            Lyrics::Plain(_) => 1,
            Lyrics::Synced(_) => 2,
            Lyrics::Instrumental => 2,
        }
    }

    /// Whether a newly arrived result may replace the stored one: it must be
    /// at least as good.
    pub fn replaces(&self, current: &Lyrics) -> (r: bool)
        ensures
            r == (self.rank() >= current.rank()),
    {
        self.rank_value() >= current.rank_value()
    }

    fn rank_value(&self) -> (r: u8)
        ensures
            r as nat == self.rank(),
    {
        match self {
            Lyrics::Absent => 0,
            Lyrics::Plain(_) => 1,
            Lyrics::Synced(_) => 2,
            Lyrics::Instrumental => 2,
        }
    }

    pub open spec fn spec_sidecar(&self) -> Option<SidecarKind> {
        match self {
            Lyrics::Synced(_) => Some(SidecarKind::Synced),
            Lyrics::Plain(_) => Some(SidecarKind::Plain),
            _ => None,
        }
    }

    /// The sidecar file this result is written to; none for results without text.
    pub fn sidecar(&self) -> (r: Option<SidecarKind>)
        ensures
            r == self.spec_sidecar(),
    {
        match self {
            Lyrics::Synced(_) => Some(SidecarKind::Synced),
            Lyrics::Plain(_) => Some(SidecarKind::Plain),
            _ => None,
        }
    }

    pub open spec fn spec_text(&self) -> Option<String> {
        match self {
            Lyrics::Synced(t) => Some(*t),
            Lyrics::Plain(t) => Some(*t),
            _ => None,
        }
    }

    /// The lyrics text, for results that carry one.
    pub fn text(&self) -> (r: Option<&String>)
        ensures
            r is Some == self.spec_text() is Some,
            r is Some ==> *r->0 == self.spec_text()->0,
    {
        match self {
            Lyrics::Synced(t) => Some(t),
            Lyrics::Plain(t) => Some(t),
            _ => None,
        }
    }

    /// The result read back from the sidecar files next to a track: the
    /// synced file wins over the plain one; with neither, nothing was found.
    pub fn from_sidecars(synced: Option<String>, plain: Option<String>) -> (r: Lyrics)
        ensures
            r == probe(synced, plain),
    {
        match synced {
            Some(t) => Lyrics::Synced(t),
            None => match plain {
                Some(t) => Lyrics::Plain(t),
                None => Lyrics::Absent,
            },
        }
    }

    /// The result a lyrics service answer stands for: synced text first, then
    /// plain text, then the instrumental flag, else nothing.
    pub fn from_api(instrumental: bool, plain: Option<String>, synced: Option<String>) -> (r: Lyrics)
        ensures
            synced is Some ==> r == Lyrics::Synced(synced->0),
            synced is None && plain is Some ==> r == Lyrics::Plain(plain->0),
            synced is None && plain is None && instrumental ==> r == Lyrics::Instrumental,
            synced is None && plain is None && !instrumental ==> r == Lyrics::Absent,
    {
        if let Some(t) = synced {
            Lyrics::Synced(t)
        } else if let Some(t) = plain {
            Lyrics::Plain(t)
        } else if instrumental {
            Lyrics::Instrumental
        } else {
            Lyrics::Absent
        }
    }
}

/// What probing the sidecar files finds, given the contents of the synced and
/// the plain file where they exist.
pub open spec fn probe(synced: Option<String>, plain: Option<String>) -> Lyrics {
    match synced {
        Some(t) => Lyrics::Synced(t),
        None => match plain {
            Some(t) => Lyrics::Plain(t),
            None => Lyrics::Absent,
        },
    }
}

/// The sidecar files after a result was written over the given ones.
pub open spec fn after_write(l: Lyrics, synced: Option<String>, plain: Option<String>) -> (
    Option<String>,
    Option<String>,
) {
    match l.spec_sidecar() {
        Some(SidecarKind::Synced) => (l.spec_text(), plain),
        Some(SidecarKind::Plain) => (synced, l.spec_text()),
        None => (synced, plain),
    }
}

/// Writing a synced result and probing again gives that result back, whatever
/// files were there; so does a plain result where no synced file exists.
pub proof fn lemma_sidecar_round_trip(l: Lyrics, synced: Option<String>, plain: Option<String>)
    requires
        l is Synced || (l is Plain && synced is None),
    ensures
        ({
            let files = after_write(l, synced, plain);
            probe(files.0, files.1) == l
        }),
{
}

/// Whether a file extension names an audio file the library reads: FLAC.
pub fn is_music_extension(ext: &str) -> (r: bool)
    ensures
        r == (ext@ == seq!['f', 'l', 'a', 'c']),
{
    let flac = String::from_str("flac");
    proof {
        reveal_strlit("flac");
    }
    assert(flac@ =~= seq!['f', 'l', 'a', 'c']);
    let own = String::from_str(ext);
    own == flac
}

impl MusicData {
    /// A copy of this track.
    pub fn duplicate(&self) -> (r: MusicData)
        ensures
            r == *self,
    {
        MusicData {
            title: self.title.clone(),
            artist: self.artist.clone(),
            album: self.album.clone(),
            duration: self.duration,
            path: self.path.clone(),
        }
    }

    /// Builds a track from its tags: title, artist and album must be present
    /// and the sample rate non-zero; the duration is whole seconds.
    pub fn from_tags(
        title: Option<String>,
        artist: Option<String>,
        album: Option<String>,
        total_samples: u64,
        sample_rate: u32,
        path: String,
    ) -> (r: Result<MusicData, TagError>)
        ensures
            title is None ==> r == Err::<MusicData, TagError>(TagError::NoTitle),
            title is Some && artist is None ==> r == Err::<MusicData, TagError>(TagError::NoArtist),
            title is Some && artist is Some && album is None ==> r == Err::<MusicData, TagError>(
                TagError::NoAlbum,
            ),
            title is Some && artist is Some && album is Some && sample_rate == 0 ==> r == Err::<
                MusicData,
                TagError,
            >(TagError::NoSampleRate),
            title is Some && artist is Some && album is Some && sample_rate != 0 ==> r == Ok::<
                MusicData,
                TagError,
            >(
                (MusicData {
                    title: title->0,
                    artist: artist->0,
                    album: album->0,
                    duration: (total_samples / sample_rate as u64) as usize,
                    path,
                }),
            ),
    {
        let Some(title) = title else {
            return Err(TagError::NoTitle);
        };
        let Some(artist) = artist else {
            return Err(TagError::NoArtist);
        };
        let Some(album) = album else {
            return Err(TagError::NoAlbum);
        };
        if sample_rate == 0 {
            return Err(TagError::NoSampleRate);
        }
        let duration = (total_samples / sample_rate as u64) as usize;
        Ok(MusicData { title, artist, album, duration, path })
    }
}

} // verus!
