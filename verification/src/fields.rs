//! The identifier dispatch of the extensible tag container: every
//! recognized sub-field identifier routed to its accumulator slot.

use vstd::prelude::*;

use crate::enums::{genre_list_of, resolve_genre_list, GenreV};
use crate::types::{OptionalAudioTags, OptionalAudioTagsV};
use crate::utils::{
    get_text_field, get_text_fields, get_url_field, get_url_fields, text_field_upd,
    text_fields_upd, url_field_upd, url_fields_upd,
};

verus! {

/// What one recognized sub-field does to the accumulators: the identifier
/// picks the slot, and the slot kind decides how the decoded value lands
/// in it.  `is3` marks a three-letter identifier of the oldest container
/// version, and `id` packs the identifier bytes big-endian.
pub open spec fn field_step(w: Seq<u8>, is3: bool, id: u32, pos: int, size: int, op: OptionalAudioTagsV, changes: bool) -> (OptionalAudioTagsV, bool) {
    if is3 {
        // TIT, the sole three-letter identifier
        if id == 0x544954 {
            let r = text_field_upd(w, pos, size, changes, op.title);
            (OptionalAudioTagsV { title: r.1, ..op }, r.0)
        } else {
            (op, changes)
        }
    } else
    // TALB
    if id == 0x54414C42 {
        let r = text_field_upd(w, pos, size, changes, op.album_movie_show);
        (OptionalAudioTagsV { album_movie_show: r.1, ..op }, r.0)
    } else
    // TBPM
    if id == 0x5442504D {
        let r = text_field_upd(w, pos, size, changes, op.bpm);
        (OptionalAudioTagsV { bpm: r.1, ..op }, r.0)
    } else
    // TCOM
    if id == 0x54434F4D {
        (OptionalAudioTagsV { composers: text_fields_upd(w, pos, size, op.composers), ..op }, true)
    } else
    // TCON
    if id == 0x54434F4E {
        let r = text_field_upd(w, pos, size, changes, None);
        match r.1 {
            Some(s) => if s.len() > 0 {
                (OptionalAudioTagsV { content_type: op.content_type + genre_list_of(s), ..op }, r.0)
            } else {
                (op, r.0)
            },
            None => (op, r.0),
        }
    } else
    // TCOP
    if id == 0x54434F50 {
        let r = text_field_upd(w, pos, size, changes, op.copyright);
        (OptionalAudioTagsV { copyright: r.1, ..op }, r.0)
    } else
    // TDAT
    if id == 0x54444154 {
        let r = text_field_upd(w, pos, size, changes, op.date);
        (OptionalAudioTagsV { date: r.1, ..op }, r.0)
    } else
    // TDLY
    if id == 0x54444C59 {
        let r = text_field_upd(w, pos, size, changes, op.playlist_delay);
        (OptionalAudioTagsV { playlist_delay: r.1, ..op }, r.0)
    } else
    // TENC
    if id == 0x54454E43 {
        let r = text_field_upd(w, pos, size, changes, op.encoded_by);
        (OptionalAudioTagsV { encoded_by: r.1, ..op }, r.0)
    } else
    // TEXT
    if id == 0x54455854 {
        (OptionalAudioTagsV { text_writers: text_fields_upd(w, pos, size, op.text_writers), ..op }, true)
    } else
    // TFLT
    if id == 0x54464C54 {
        let r = text_field_upd(w, pos, size, changes, op.file_type);
        (OptionalAudioTagsV { file_type: r.1, ..op }, r.0)
    } else
    // TIME
    if id == 0x54494D45 {
        let r = text_field_upd(w, pos, size, changes, op.time);
        (OptionalAudioTagsV { time: r.1, ..op }, r.0)
    } else
    // TIT1
    if id == 0x54495431 {
        let r = text_field_upd(w, pos, size, changes, op.content_group_description);
        (OptionalAudioTagsV { content_group_description: r.1, ..op }, r.0)
    } else
    // TIT3
    if id == 0x54495433 {
        let r = text_field_upd(w, pos, size, changes, op.subtitle_refinement_description);
        (OptionalAudioTagsV { subtitle_refinement_description: r.1, ..op }, r.0)
    } else
    // TIT2
    if id == 0x54495432 {
        let r = text_field_upd(w, pos, size, changes, op.title);
        (OptionalAudioTagsV { title: r.1, ..op }, r.0)
    } else
    // TKEY
    if id == 0x544B4559 {
        let r = text_field_upd(w, pos, size, changes, op.initial_key);
        (OptionalAudioTagsV { initial_key: r.1, ..op }, r.0)
    } else
    // TLAN
    if id == 0x544C414E {
        let r = text_field_upd(w, pos, size, changes, op.language);
        (OptionalAudioTagsV { language: r.1, ..op }, r.0)
    } else
    // TLEN
    if id == 0x544C454E {
        let r = text_field_upd(w, pos, size, changes, op.length);
        (OptionalAudioTagsV { length: r.1, ..op }, r.0)
    } else
    // TMED
    if id == 0x544D4544 {
        let r = text_field_upd(w, pos, size, changes, op.media_type);
        (OptionalAudioTagsV { media_type: r.1, ..op }, r.0)
    } else
    // TOAL
    if id == 0x544F414C {
        let r = text_field_upd(w, pos, size, changes, op.original_album_move_show_title);
        (OptionalAudioTagsV { original_album_move_show_title: r.1, ..op }, r.0)
    } else
    // TOFN
    if id == 0x544F464E {
        let r = text_field_upd(w, pos, size, changes, op.original_filename);
        (OptionalAudioTagsV { original_filename: r.1, ..op }, r.0)
    } else
    // TOLY
    if id == 0x544F4C59 {
        (OptionalAudioTagsV { original_text_writers: text_fields_upd(w, pos, size, op.original_text_writers), ..op }, true)
    } else
    // TOPE
    if id == 0x544F5045 {
        (OptionalAudioTagsV { original_artists: text_fields_upd(w, pos, size, op.original_artists), ..op }, true)
    } else
    // TORY
    if id == 0x544F5259 {
        let r = text_field_upd(w, pos, size, changes, op.original_release_year);
        (OptionalAudioTagsV { original_release_year: r.1, ..op }, r.0)
    } else
    // TOWN
    if id == 0x544F574E {
        let r = text_field_upd(w, pos, size, changes, op.file_owner);
        (OptionalAudioTagsV { file_owner: r.1, ..op }, r.0)
    } else
    // TPE1
    if id == 0x54504531 {
        (OptionalAudioTagsV { performers: text_fields_upd(w, pos, size, op.performers), ..op }, true)
    } else
    // TPE2
    if id == 0x54504532 {
        let r = text_field_upd(w, pos, size, changes, op.band);
        (OptionalAudioTagsV { band: r.1, ..op }, r.0)
    } else
    // TPE3
    if id == 0x54504533 {
        let r = text_field_upd(w, pos, size, changes, op.conductor);
        (OptionalAudioTagsV { conductor: r.1, ..op }, r.0)
    } else
    // TPE4
    if id == 0x54504534 {
        let r = text_field_upd(w, pos, size, changes, op.interpreted);
        (OptionalAudioTagsV { interpreted: r.1, ..op }, r.0)
    } else
    // TPOS
    if id == 0x54504F53 {
        let r = text_field_upd(w, pos, size, changes, op.part_of_a_set);
        (OptionalAudioTagsV { part_of_a_set: r.1, ..op }, r.0)
    } else
    // TPUB
    if id == 0x54505542 {
        let r = text_field_upd(w, pos, size, changes, op.publisher);
        (OptionalAudioTagsV { publisher: r.1, ..op }, r.0)
    } else
    // TRCK
    if id == 0x5452434B {
        let r = text_field_upd(w, pos, size, changes, op.track_number);
        (OptionalAudioTagsV { track_number: r.1, ..op }, r.0)
    } else
    // TRDA
    if id == 0x54524441 {
        let r = text_field_upd(w, pos, size, changes, op.recording_dates);
        (OptionalAudioTagsV { recording_dates: r.1, ..op }, r.0)
    } else
    // TRSN
    if id == 0x5452534E {
        let r = text_field_upd(w, pos, size, changes, op.internet_radio_station_name);
        (OptionalAudioTagsV { internet_radio_station_name: r.1, ..op }, r.0)
    } else
    // TRSO
    if id == 0x5452534F {
        let r = text_field_upd(w, pos, size, changes, op.internet_radio_station_owner);
        (OptionalAudioTagsV { internet_radio_station_owner: r.1, ..op }, r.0)
    } else
    // TSIZ
    if id == 0x5453495A {
        let r = text_field_upd(w, pos, size, changes, op.size);
        (OptionalAudioTagsV { size: r.1, ..op }, r.0)
    } else
    // TSRC
    if id == 0x54535243 {
        let r = text_field_upd(w, pos, size, changes, op.international_standard_recording_code);
        (OptionalAudioTagsV { international_standard_recording_code: r.1, ..op }, r.0)
    } else
    // TSSE
    if id == 0x54535345 {
        let r = text_field_upd(w, pos, size, changes, op.soft_hard_setting);
        (OptionalAudioTagsV { soft_hard_setting: r.1, ..op }, r.0)
    } else
    // TYER
    if id == 0x54594552 {
        let r = text_field_upd(w, pos, size, changes, op.year);
        (OptionalAudioTagsV { year: r.1, ..op }, r.0)
    } else
    // IPLS
    if id == 0x49504C53 {
        let r = text_field_upd(w, pos, size, changes, op.involved_people);
        (OptionalAudioTagsV { involved_people: r.1, ..op }, r.0)
    } else
    // WCOM
    if id == 0x57434F4D {
        let r = url_fields_upd(w, pos, size, changes, op.commercial_info_url);
        (OptionalAudioTagsV { commercial_info_url: r.1, ..op }, r.0)
    } else
    // WCOP
    if id == 0x57434F50 {
        let r = url_field_upd(w, pos, size, changes, op.copyright_info_url);
        (OptionalAudioTagsV { copyright_info_url: r.1, ..op }, r.0)
    } else
    // WOAF
    if id == 0x574F4146 {
        let r = url_field_upd(w, pos, size, changes, op.official_webpage);
        (OptionalAudioTagsV { official_webpage: r.1, ..op }, r.0)
    } else
    // WOAR
    if id == 0x574F4152 {
        let r = url_fields_upd(w, pos, size, changes, op.official_artist_webpage);
        (OptionalAudioTagsV { official_artist_webpage: r.1, ..op }, r.0)
    } else
    // WOAS
    if id == 0x574F4153 {
        let r = url_field_upd(w, pos, size, changes, op.official_audio_source_webpage);
        (OptionalAudioTagsV { official_audio_source_webpage: r.1, ..op }, r.0)
    } else
    // WORS
    if id == 0x574F5253 {
        let r = url_field_upd(w, pos, size, changes, op.official_internet_radio_webpage);
        (OptionalAudioTagsV { official_internet_radio_webpage: r.1, ..op }, r.0)
    } else
    // WPAY
    if id == 0x57504159 {
        let r = url_field_upd(w, pos, size, changes, op.payment_url);
        (OptionalAudioTagsV { payment_url: r.1, ..op }, r.0)
    } else
    // WPUB
    if id == 0x57505542 {
        let r = url_field_upd(w, pos, size, changes, op.publishers_official_webpage);
        (OptionalAudioTagsV { publishers_official_webpage: r.1, ..op }, r.0)
    } else
    {
        (op, changes)
    }
}

/// Routes one recognized sub-field into its accumulator slot.
#[verifier::rlimit(100)]
pub(crate) fn apply_field(w: &[u8], is3: bool, id: u32, pos: usize, size: u32, op: &mut OptionalAudioTags, changes: &mut bool)
    requires
        pos + size <= w@.len(),
    ensures
        (final(op)@, *final(changes)) == field_step(w@, is3, id, pos as int, size as int, old(op)@, *old(changes)),
{
    if is3 {
        // TIT, the sole three-letter identifier
        if id == 0x544954 {
            get_text_field(w, pos, size, changes, &mut op.title);
            proof {
                assert((op@, *changes) =~~= field_step(w@, is3, id, pos as int, size as int, old(op)@, *old(changes)));
            }
        }
        return ;
    }
    // TALB
    if id == 0x54414C42 {
        get_text_field(w, pos, size, changes, &mut op.album_movie_show);
        proof {
            assert((op@, *changes) =~~= field_step(w@, is3, id, pos as int, size as int, old(op)@, *old(changes)));
        }
        return ;
    }
    // TBPM
    if id == 0x5442504D {
        get_text_field(w, pos, size, changes, &mut op.bpm);
        proof {
            assert((op@, *changes) =~~= field_step(w@, is3, id, pos as int, size as int, old(op)@, *old(changes)));
        }
        return ;
    }
    // TCOM
    if id == 0x54434F4D {
        get_text_fields(w, pos, size, changes, &mut op.composers);
        proof {
            assert((op@, *changes) =~~= field_step(w@, is3, id, pos as int, size as int, old(op)@, *old(changes)));
        }
        return ;
    }
    // TCON
    if id == 0x54434F4E {
        let mut s: Option<String> = None;
        get_text_field(w, pos, size, changes, &mut s);
        match s {
            Some(sv) => {
                if sv.as_str().unicode_len() > 0 {
                    let mut gl = resolve_genre_list(sv.as_str());
                    op.content_type.append(&mut gl);
                }
            },
            None => {},
        }
        proof {
            assert((op@, *changes) =~~= field_step(w@, is3, id, pos as int, size as int, old(op)@, *old(changes)));
        }
        return ;
    }
    // TCOP
    if id == 0x54434F50 {
        get_text_field(w, pos, size, changes, &mut op.copyright);
        proof {
            assert((op@, *changes) =~~= field_step(w@, is3, id, pos as int, size as int, old(op)@, *old(changes)));
        }
        return ;
    }
    // TDAT
    if id == 0x54444154 {
        get_text_field(w, pos, size, changes, &mut op.date);
        proof {
            assert((op@, *changes) =~~= field_step(w@, is3, id, pos as int, size as int, old(op)@, *old(changes)));
        }
        return ;
    }
    // TDLY
    if id == 0x54444C59 {
        get_text_field(w, pos, size, changes, &mut op.playlist_delay);
        proof {
            assert((op@, *changes) =~~= field_step(w@, is3, id, pos as int, size as int, old(op)@, *old(changes)));
        }
        return ;
    }
    // TENC
    if id == 0x54454E43 {
        get_text_field(w, pos, size, changes, &mut op.encoded_by);
        proof {
            assert((op@, *changes) =~~= field_step(w@, is3, id, pos as int, size as int, old(op)@, *old(changes)));
        }
        return ;
    }
    // TEXT
    if id == 0x54455854 {
        get_text_fields(w, pos, size, changes, &mut op.text_writers);
        proof {
            assert((op@, *changes) =~~= field_step(w@, is3, id, pos as int, size as int, old(op)@, *old(changes)));
        }
        return ;
    }
    // TFLT
    if id == 0x54464C54 {
        get_text_field(w, pos, size, changes, &mut op.file_type);
        proof {
            assert((op@, *changes) =~~= field_step(w@, is3, id, pos as int, size as int, old(op)@, *old(changes)));
        }
        return ;
    }
    // TIME
    if id == 0x54494D45 {
        get_text_field(w, pos, size, changes, &mut op.time);
        proof {
            assert((op@, *changes) =~~= field_step(w@, is3, id, pos as int, size as int, old(op)@, *old(changes)));
        }
        return ;
    }
    // TIT1
    if id == 0x54495431 {
        get_text_field(w, pos, size, changes, &mut op.content_group_description);
        proof {
            assert((op@, *changes) =~~= field_step(w@, is3, id, pos as int, size as int, old(op)@, *old(changes)));
        }
        return ;
    }
    // TIT3
    if id == 0x54495433 {
        get_text_field(w, pos, size, changes, &mut op.subtitle_refinement_description);
        proof {
            assert((op@, *changes) =~~= field_step(w@, is3, id, pos as int, size as int, old(op)@, *old(changes)));
        }
        return ;
    }
    // TIT2
    if id == 0x54495432 {
        get_text_field(w, pos, size, changes, &mut op.title);
        proof {
            assert((op@, *changes) =~~= field_step(w@, is3, id, pos as int, size as int, old(op)@, *old(changes)));
        }
        return ;
    }
    // TKEY
    if id == 0x544B4559 {
        get_text_field(w, pos, size, changes, &mut op.initial_key);
        proof {
            assert((op@, *changes) =~~= field_step(w@, is3, id, pos as int, size as int, old(op)@, *old(changes)));
        }
        return ;
    }
    // TLAN
    if id == 0x544C414E {
        get_text_field(w, pos, size, changes, &mut op.language);
        proof {
            assert((op@, *changes) =~~= field_step(w@, is3, id, pos as int, size as int, old(op)@, *old(changes)));
        }
        return ;
    }
    // TLEN
    if id == 0x544C454E {
        get_text_field(w, pos, size, changes, &mut op.length);
        proof {
            assert((op@, *changes) =~~= field_step(w@, is3, id, pos as int, size as int, old(op)@, *old(changes)));
        }
        return ;
    }
    // TMED
    if id == 0x544D4544 {
        get_text_field(w, pos, size, changes, &mut op.media_type);
        proof {
            assert((op@, *changes) =~~= field_step(w@, is3, id, pos as int, size as int, old(op)@, *old(changes)));
        }
        return ;
    }
    // TOAL
    if id == 0x544F414C {
        get_text_field(w, pos, size, changes, &mut op.original_album_move_show_title);
        proof {
            assert((op@, *changes) =~~= field_step(w@, is3, id, pos as int, size as int, old(op)@, *old(changes)));
        }
        return ;
    }
    // TOFN
    if id == 0x544F464E {
        get_text_field(w, pos, size, changes, &mut op.original_filename);
        proof {
            assert((op@, *changes) =~~= field_step(w@, is3, id, pos as int, size as int, old(op)@, *old(changes)));
        }
        return ;
    }
    // TOLY
    if id == 0x544F4C59 {
        get_text_fields(w, pos, size, changes, &mut op.original_text_writers);
        proof {
            assert((op@, *changes) =~~= field_step(w@, is3, id, pos as int, size as int, old(op)@, *old(changes)));
        }
        return ;
    }
    // TOPE
    if id == 0x544F5045 {
        get_text_fields(w, pos, size, changes, &mut op.original_artists);
        proof {
            assert((op@, *changes) =~~= field_step(w@, is3, id, pos as int, size as int, old(op)@, *old(changes)));
        }
        return ;
    }
    // TORY
    if id == 0x544F5259 {
        get_text_field(w, pos, size, changes, &mut op.original_release_year);
        proof {
            assert((op@, *changes) =~~= field_step(w@, is3, id, pos as int, size as int, old(op)@, *old(changes)));
        }
        return ;
    }
    // TOWN
    if id == 0x544F574E {
        get_text_field(w, pos, size, changes, &mut op.file_owner);
        proof {
            assert((op@, *changes) =~~= field_step(w@, is3, id, pos as int, size as int, old(op)@, *old(changes)));
        }
        return ;
    }
    // TPE1
    if id == 0x54504531 {
        get_text_fields(w, pos, size, changes, &mut op.performers);
        proof {
            assert((op@, *changes) =~~= field_step(w@, is3, id, pos as int, size as int, old(op)@, *old(changes)));
        }
        return ;
    }
    // TPE2
    if id == 0x54504532 {
        get_text_field(w, pos, size, changes, &mut op.band);
        proof {
            assert((op@, *changes) =~~= field_step(w@, is3, id, pos as int, size as int, old(op)@, *old(changes)));
        }
        return ;
    }
    // TPE3
    if id == 0x54504533 {
        get_text_field(w, pos, size, changes, &mut op.conductor);
        proof {
            assert((op@, *changes) =~~= field_step(w@, is3, id, pos as int, size as int, old(op)@, *old(changes)));
        }
        return ;
    }
    // TPE4
    if id == 0x54504534 {
        get_text_field(w, pos, size, changes, &mut op.interpreted);
        proof {
            assert((op@, *changes) =~~= field_step(w@, is3, id, pos as int, size as int, old(op)@, *old(changes)));
        }
        return ;
    }
    // TPOS
    if id == 0x54504F53 {
        get_text_field(w, pos, size, changes, &mut op.part_of_a_set);
        proof {
            assert((op@, *changes) =~~= field_step(w@, is3, id, pos as int, size as int, old(op)@, *old(changes)));
        }
        return ;
    }
    // TPUB
    if id == 0x54505542 {
        get_text_field(w, pos, size, changes, &mut op.publisher);
        proof {
            assert((op@, *changes) =~~= field_step(w@, is3, id, pos as int, size as int, old(op)@, *old(changes)));
        }
        return ;
    }
    // TRCK
    if id == 0x5452434B {
        get_text_field(w, pos, size, changes, &mut op.track_number);
        proof {
            assert((op@, *changes) =~~= field_step(w@, is3, id, pos as int, size as int, old(op)@, *old(changes)));
        }
        return ;
    }
    // TRDA
    if id == 0x54524441 {
        get_text_field(w, pos, size, changes, &mut op.recording_dates);
        proof {
            assert((op@, *changes) =~~= field_step(w@, is3, id, pos as int, size as int, old(op)@, *old(changes)));
        }
        return ;
    }
    // TRSN
    if id == 0x5452534E {
        get_text_field(w, pos, size, changes, &mut op.internet_radio_station_name);
        proof {
            assert((op@, *changes) =~~= field_step(w@, is3, id, pos as int, size as int, old(op)@, *old(changes)));
        }
        return ;
    }
    // TRSO
    if id == 0x5452534F {
        get_text_field(w, pos, size, changes, &mut op.internet_radio_station_owner);
        proof {
            assert((op@, *changes) =~~= field_step(w@, is3, id, pos as int, size as int, old(op)@, *old(changes)));
        }
        return ;
    }
    // TSIZ
    if id == 0x5453495A {
        get_text_field(w, pos, size, changes, &mut op.size);
        proof {
            assert((op@, *changes) =~~= field_step(w@, is3, id, pos as int, size as int, old(op)@, *old(changes)));
        }
        return ;
    }
    // TSRC
    if id == 0x54535243 {
        get_text_field(w, pos, size, changes, &mut op.international_standard_recording_code);
        proof {
            assert((op@, *changes) =~~= field_step(w@, is3, id, pos as int, size as int, old(op)@, *old(changes)));
        }
        return ;
    }
    // TSSE
    if id == 0x54535345 {
        get_text_field(w, pos, size, changes, &mut op.soft_hard_setting);
        proof {
            assert((op@, *changes) =~~= field_step(w@, is3, id, pos as int, size as int, old(op)@, *old(changes)));
        }
        return ;
    }
    // TYER
    if id == 0x54594552 {
        get_text_field(w, pos, size, changes, &mut op.year);
        proof {
            assert((op@, *changes) =~~= field_step(w@, is3, id, pos as int, size as int, old(op)@, *old(changes)));
        }
        return ;
    }
    // IPLS
    if id == 0x49504C53 {
        get_text_field(w, pos, size, changes, &mut op.involved_people);
        proof {
            assert((op@, *changes) =~~= field_step(w@, is3, id, pos as int, size as int, old(op)@, *old(changes)));
        }
        return ;
    }
    // WCOM
    if id == 0x57434F4D {
        get_url_fields(w, pos, size, changes, &mut op.commercial_info_url);
        proof {
            assert((op@, *changes) =~~= field_step(w@, is3, id, pos as int, size as int, old(op)@, *old(changes)));
        }
        return ;
    }
    // WCOP
    if id == 0x57434F50 {
        get_url_field(w, pos, size, changes, &mut op.copyright_info_url);
        proof {
            assert((op@, *changes) =~~= field_step(w@, is3, id, pos as int, size as int, old(op)@, *old(changes)));
        }
        return ;
    }
    // WOAF
    if id == 0x574F4146 {
        get_url_field(w, pos, size, changes, &mut op.official_webpage);
        proof {
            assert((op@, *changes) =~~= field_step(w@, is3, id, pos as int, size as int, old(op)@, *old(changes)));
        }
        return ;
    }
    // WOAR
    if id == 0x574F4152 {
        get_url_fields(w, pos, size, changes, &mut op.official_artist_webpage);
        proof {
            assert((op@, *changes) =~~= field_step(w@, is3, id, pos as int, size as int, old(op)@, *old(changes)));
        }
        return ;
    }
    // WOAS
    if id == 0x574F4153 {
        get_url_field(w, pos, size, changes, &mut op.official_audio_source_webpage);
        proof {
            assert((op@, *changes) =~~= field_step(w@, is3, id, pos as int, size as int, old(op)@, *old(changes)));
        }
        return ;
    }
    // WORS
    if id == 0x574F5253 {
        get_url_field(w, pos, size, changes, &mut op.official_internet_radio_webpage);
        proof {
            assert((op@, *changes) =~~= field_step(w@, is3, id, pos as int, size as int, old(op)@, *old(changes)));
        }
        return ;
    }
    // WPAY
    if id == 0x57504159 {
        get_url_field(w, pos, size, changes, &mut op.payment_url);
        proof {
            assert((op@, *changes) =~~= field_step(w@, is3, id, pos as int, size as int, old(op)@, *old(changes)));
        }
        return ;
    }
    // WPUB
    if id == 0x57505542 {
        get_url_field(w, pos, size, changes, &mut op.publishers_official_webpage);
        proof {
            assert((op@, *changes) =~~= field_step(w@, is3, id, pos as int, size as int, old(op)@, *old(changes)));
        }
        return ;
    }
    proof {
        assert((op@, *changes) =~~= field_step(w@, is3, id, pos as int, size as int, old(op)@, *old(changes)));
    }
}

} // verus!
