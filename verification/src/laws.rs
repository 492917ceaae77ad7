use vstd::prelude::*;

use crate::catalogue::{
    catalogue_entry, catalogue_entry_for, catalogue_len, design_index, lemma_catalogue_ids,
};
use crate::decimal::{lemma_parse_decimal, spec_decimal, spec_parse_u32};
use crate::designs::{
    catalogue_ids, is_known_design, lemma_design_ids_distinct, spec_normalize_design,
};
use crate::rotation::{
    dedup_normalized, is_valid_queue, lemma_dedup_normalized_valid, lemma_normalize_known,
    remove_all, spec_exclude, spec_include, spec_normalize_rotation, spec_swap,
};
use crate::settings::WidgetSettingsView;
use crate::state::{joined_titles, title_separator};
use crate::state::{
    check_failed_message, checking_message, downloading_message, folder_failed_message,
    install_failed_message, libraries_opened_message, max_offset_px, open_failed_message,
    reset_message, save_failed_message, saved_message, spec_status_tone, SettingsApp, StatusTone,
};

verus! {

/// A list of known designs without repeats is left as it is by normalising.
pub proof fn lemma_dedup_of_valid(q: Seq<Seq<char>>)
    requires
        q.no_duplicates(),
        forall|i: int| 0 <= i < q.len() ==> #[trigger] is_known_design(q[i]),
    ensures
        dedup_normalized(q) == q,
    decreases q.len(),
{
    if q.len() > 0 {
        let p = q.drop_last();
        assert forall|i: int, j: int| 0 <= i < p.len() && 0 <= j < p.len() && i != j implies p[i]
            != p[j] by {
            assert(q[i] != q[j]);
        }
        assert forall|i: int| 0 <= i < p.len() implies #[trigger] is_known_design(p[i]) by {
            assert(is_known_design(q[i]));
        }
        lemma_dedup_of_valid(p);
        assert(is_known_design(q[q.len() - 1]));
        lemma_normalize_known(q.last());
        if p.contains(q.last()) {
            let k = choose|k: int| 0 <= k < p.len() && p[k] == q.last();
            assert(q[k] == q[q.len() - 1]);
        }
        assert(p.push(q.last()) =~= q);
    }
}

/// A design is in the normalised list exactly when some entry of the
/// source stands for it.
pub proof fn lemma_dedup_contains(src: Seq<Seq<char>>, x: Seq<char>)
    ensures
        dedup_normalized(src).contains(x) <==> exists|i: int|
            0 <= i < src.len() && #[trigger] spec_normalize_design(src[i]) == x,
    decreases src.len(),
{
    if src.len() > 0 {
        let p = src.drop_last();
        lemma_dedup_contains(p, x);
        if exists|i: int| 0 <= i < src.len() && #[trigger] spec_normalize_design(src[i]) == x {
            let i = choose|i: int| 0 <= i < src.len() && #[trigger] spec_normalize_design(src[i]) == x;
            if i < src.len() - 1 {
                assert(spec_normalize_design(p[i]) == x);
            }
        }
        if exists|i: int| 0 <= i < p.len() && #[trigger] spec_normalize_design(p[i]) == x {
            let i = choose|i: int| 0 <= i < p.len() && #[trigger] spec_normalize_design(p[i]) == x;
            assert(spec_normalize_design(src[i]) == x);
        }
        let n = spec_normalize_design(src.last());
        if !dedup_normalized(p).contains(n) {
            assert(dedup_normalized(p).push(n)[dedup_normalized(p).len() as int] == n);
            if dedup_normalized(src).contains(x) && x != n {
                let k = choose|k: int|
                    0 <= k < dedup_normalized(src).len() && dedup_normalized(src)[k] == x;
                assert(dedup_normalized(p)[k] == x);
            }
            if dedup_normalized(p).contains(x) {
                let k = choose|k: int|
                    0 <= k < dedup_normalized(p).len() && dedup_normalized(p)[k] == x;
                assert(dedup_normalized(src)[k] == x);
            }
        }
    }
}

/// What taking a design out of a list leaves: the other entries, with no
/// repeats when the list had none.
pub proof fn lemma_remove_all(q: Seq<Seq<char>>, id: Seq<char>)
    ensures
        forall|x: Seq<char>|
            #[trigger] remove_all(q, id).contains(x) <==> (q.contains(x) && x != id),
        q.no_duplicates() ==> remove_all(q, id).no_duplicates(),
    decreases q.len(),
{
    if q.len() > 0 {
        let p = q.drop_last();
        lemma_remove_all(p, id);
        let r = remove_all(p, id);
        assert forall|x: Seq<char>| remove_all(q, id).contains(x) <==> (q.contains(x) && x != id) by {
            if q.contains(x) && x != id {
                let k = choose|k: int| 0 <= k < q.len() && q[k] == x;
                if k < q.len() - 1 {
                    assert(p[k] == x);
                    assert(p.contains(x));
                    assert(r.contains(x));
                    if q.last() != id {
                        let j = choose|j: int| 0 <= j < r.len() && r[j] == x;
                        assert(r.push(q.last())[j] == x);
                    }
                } else {
                    assert(r.push(q.last())[r.len() as int] == x);
                }
            }
            if remove_all(q, id).contains(x) {
                let k = choose|k: int| 0 <= k < remove_all(q, id).len() && remove_all(q, id)[k] == x;
                if q.last() != id && k == r.len() {
                    assert(q[q.len() - 1] == x);
                } else {
                    assert(r[k] == x);
                    assert(r.contains(x));
                    assert(p.contains(x));
                    let j = choose|j: int| 0 <= j < p.len() && p[j] == x;
                    assert(q[j] == x);
                }
            }
        }
        if q.no_duplicates() {
            assert forall|i: int, j: int| 0 <= i < p.len() && 0 <= j < p.len() && i != j implies p[i]
                != p[j] by {
                assert(q[i] != q[j]);
            }
            if q.last() != id {
                let s = r.push(q.last());
                assert(!p.contains(q.last())) by {
                    if p.contains(q.last()) {
                        let k = choose|k: int| 0 <= k < p.len() && p[k] == q.last();
                        assert(q[k] == q[q.len() - 1]);
                    }
                }
                assert(!r.contains(q.last()));
                assert forall|i: int, j: int| 0 <= i < s.len() && 0 <= j < s.len() && i != j implies s[i]
                    != s[j] by {
                    if i == s.len() - 1 {
                        assert(r[j] == s[j]);
                    } else if j == s.len() - 1 {
                        assert(r[i] == s[i]);
                    } else {
                        assert(r[i] == s[i] && r[j] == s[j]);
                    }
                }
            }
        }
    }
}

/// Normalising a stored rotation list always gives a queue the widget can
/// run: not empty, no design twice, only designs of the catalogue.
pub proof fn law_normalized_rotation_is_valid(saved: Option<Seq<Seq<char>>>)
    ensures
        is_valid_queue(spec_normalize_rotation(saved)),
{
    let src = match saved {
        Some(s) => s,
        None => catalogue_ids(),
    };
    lemma_dedup_normalized_valid(src);
    lemma_catalogue_ids();
    assert(is_known_design(catalogue_ids()[0]));
}

/// Normalising a rotation list a second time changes nothing.
pub proof fn law_rotation_normalization_idempotent(saved: Option<Seq<Seq<char>>>)
    ensures
        spec_normalize_rotation(Some(spec_normalize_rotation(saved))) == spec_normalize_rotation(
            saved,
        ),
{
    let q = spec_normalize_rotation(saved);
    law_normalized_rotation_is_valid(saved);
    lemma_dedup_of_valid(q);
}

/// A valid queue is its own normalisation.
pub proof fn law_valid_queue_is_normalized(q: Seq<Seq<char>>)
    requires
        is_valid_queue(q),
    ensures
        spec_normalize_rotation(Some(q)) == q,
{
    lemma_dedup_of_valid(q);
}

/// A design of the catalogue that a stored list names is in the queue it
/// normalises to.
pub proof fn law_normalization_keeps_named_designs(saved: Seq<Seq<char>>, id: Seq<char>)
    requires
        saved.contains(id),
        is_known_design(id),
    ensures
        spec_normalize_rotation(Some(saved)).contains(id),
{
    let k = choose|k: int| 0 <= k < saved.len() && saved[k] == id;
    lemma_normalize_known(id);
    assert(spec_normalize_design(saved[k]) == id);
    lemma_dedup_contains(saved, id);
}

/// Ticking a design of the catalogue, unticking one, or moving an entry of
/// a valid queue leaves a valid queue; a ticked design is queued.
pub proof fn law_queue_edits_keep_queue_valid(q: Seq<Seq<char>>, id: Seq<char>, i: int)
    requires
        is_valid_queue(q),
        is_known_design(id),
    ensures
        is_valid_queue(spec_include(q, id)),
        spec_include(q, id).contains(id),
        is_valid_queue(spec_exclude(q, id)),
        0 <= i && i + 1 < q.len() ==> is_valid_queue(spec_swap(q, i, i + 1)),
{
    let inc = spec_include(q, id);
    if !q.contains(id) {
        assert(inc[q.len() as int] == id);
        assert forall|a: int, b: int| 0 <= a < inc.len() && 0 <= b < inc.len() && a != b implies inc[a]
            != inc[b] by {
            if a == q.len() {
                assert(q[b] == inc[b]);
            } else if b == q.len() {
                assert(q[a] == inc[a]);
            }
        }
        assert forall|a: int| 0 <= a < inc.len() implies #[trigger] is_known_design(inc[a]) by {
            if a < q.len() {
                assert(inc[a] == q[a]);
            }
        }
    }
    lemma_remove_all(q, id);
    let kept = remove_all(q, id);
    assert forall|a: int| 0 <= a < kept.len() implies #[trigger] is_known_design(kept[a]) by {
        assert(kept.contains(kept[a]));
        assert(q.contains(kept[a]));
        let k = choose|k: int| 0 <= k < q.len() && q[k] == kept[a];
        assert(is_known_design(q[k]));
    }
    if 0 <= i && i + 1 < q.len() {
        let s = spec_swap(q, i, i + 1);
        assert forall|a: int, b: int| 0 <= a < s.len() && 0 <= b < s.len() && a != b implies s[a]
            != s[b] by {
            let pa = if a == i {
                i + 1
            } else if a == i + 1 {
                i
            } else {
                a
            };
            let pb = if b == i {
                i + 1
            } else if b == i + 1 {
                i
            } else {
                b
            };
            assert(s[a] == q[pa] && s[b] == q[pb]);
        }
        assert forall|a: int| 0 <= a < s.len() implies #[trigger] is_known_design(s[a]) by {
            if a == i {
                assert(is_known_design(q[i + 1]));
            } else if a == i + 1 {
                assert(is_known_design(q[i]));
            } else {
                assert(is_known_design(q[a]));
            }
        }
    }
}

/// Unticking a design takes it out of the queue, unless it was the only
/// queued design, which then stays alone.
pub proof fn law_unticked_design_leaves_queue(q: Seq<Seq<char>>, id: Seq<char>)
    ensures
        !spec_exclude(q, id).contains(id) || spec_exclude(q, id) == seq![id],
        forall|x: Seq<char>|
            x != id ==> (spec_exclude(q, id).contains(x) <==> #[trigger] q.contains(x)),
{
    lemma_remove_all(q, id);
    let kept = remove_all(q, id);
    assert(!kept.contains(id));
    if kept.len() == 0 {
        assert forall|x: Seq<char>| x != id implies (spec_exclude(q, id).contains(x) <==> #[trigger] q.contains(x)) by {
            if q.contains(x) {
                assert(kept.contains(x));
            }
            if spec_exclude(q, id).contains(x) {
                let k = choose|k: int| 0 <= k < spec_exclude(q, id).len() && spec_exclude(q, id)[k] == x;
                assert(seq![id][k] == id);
            }
        }
    }
}

/// Moving an entry one place later and then back one place earlier gives
/// the queue back.
pub proof fn law_move_down_then_up_restores(q: Seq<Seq<char>>, i: int)
    requires
        0 <= i,
        i + 1 < q.len(),
    ensures
        spec_swap(spec_swap(q, i, i + 1), i + 1, i) == q,
{
    assert(spec_swap(spec_swap(q, i, i + 1), i + 1, i) =~= q);
}

/// Writing a number as decimal text and reading it back gives the number.
pub proof fn law_decimal_round_trip(n: u32)
    ensures
        spec_parse_u32(spec_decimal(n as nat)) == Some(n),
{
    lemma_parse_decimal(n);
}

/// Selecting a gallery entry selects the design at that place of the
/// catalogue, and the entry looked up by that design is the selected one.
pub proof fn law_selection_matches_catalogue(i: int)
    requires
        0 <= i < catalogue_len(),
    ensures
        design_index(catalogue_ids()[i]) == i,
        catalogue_entry_for(catalogue_ids()[i]) == catalogue_entry(i),
{
    lemma_catalogue_ids();
    lemma_design_ids_distinct();
    assert(is_known_design(catalogue_ids()[i]));
}

/// A freshly loaded state is consistent: a design of the catalogue is
/// active and selected, the rotation queue is valid, the offset is at most
/// 480 and the temperature unit is one of the two.
pub proof fn law_loaded_state_is_consistent(app: SettingsApp, s: WidgetSettingsView)
    requires
        app.loaded_from(s),
    ensures
        is_known_design(app.active_design@),
        0 <= app.selected_idx < catalogue_len(),
        catalogue_ids()[app.selected_idx as int] == app.active_design@,
        is_valid_queue(app.queue()),
        app.widget_offset_px <= max_offset_px(),
        app.weather_unit_idx <= 1,
{
    lemma_normalize_known(s.active_design);
    law_normalized_rotation_is_valid(s.rotation_designs);
    lemma_catalogue_ids();
    lemma_design_ids_distinct();
    let k = choose|k: int| 0 <= k < catalogue_ids().len() && catalogue_ids()[k] == app.active_design@;
    law_selection_matches_catalogue(k);
}

/// Loading what saving writes gives back the same options: for a state
/// whose options are already in saved form, any state loaded from the
/// record that saving writes holds the same values.
pub proof fn law_save_then_load(app: SettingsApp, reloaded: SettingsApp)
    requires
        app.is_canonical(),
        reloaded.loaded_from(app.saved_view()),
    ensures
        reloaded.same_persisted(app),
{
    lemma_normalize_known(app.active_design@);
    law_valid_queue_is_normalized(app.queue());
    reveal_strlit("F");
    reveal_strlit("C");
    assert("C"@ != "F"@) by {
        assert("C"@[0] != "F"@[0]);
    }
    assert(reloaded.active_design@ == app.active_design@);
    assert(reloaded.selected_idx == app.selected_idx);
    assert(reloaded.refresh_interval@ == app.refresh_interval@);
    assert(reloaded.widget_offset_px == app.widget_offset_px);
    assert(reloaded.rotation_interval@ == app.rotation_interval@);
    assert(reloaded.queue() == app.queue());
    assert(reloaded.codex_endpoint@ == app.codex_endpoint@);
    assert(reloaded.codex_filter@ == app.codex_filter@);
    assert(reloaded.weather_city@ == app.weather_city@);
    assert(reloaded.weather_unit_idx == app.weather_unit_idx);
    assert(reloaded.discord_client_id@ == app.discord_client_id@);
    assert(reloaded.discord_client_secret@ == app.discord_client_secret@);
    assert(reloaded.discord_redirect_uri@ == app.discord_redirect_uri@);
}

/// Loading one settings record always gives the same options, so putting
/// the saved settings back gives what a fresh start would.
pub proof fn law_load_is_deterministic(
    a: SettingsApp,
    b: SettingsApp,
    s: WidgetSettingsView,
)
    requires
        a.loaded_from(s),
        b.loaded_from(s),
    ensures
        a.same_persisted(b),
{
}

/// The status line reads as a success after a save, as a failure after a
/// failed save, update check or update install, and as plain information
/// otherwise.
pub proof fn law_status_tones(e: Seq<char>)
    ensures
        spec_status_tone(saved_message()) == StatusTone::Success,
        spec_status_tone(save_failed_message(e)) == StatusTone::Failure,
        spec_status_tone(check_failed_message(e)) == StatusTone::Failure,
        spec_status_tone(install_failed_message(e)) == StatusTone::Failure,
        spec_status_tone(reset_message()) == StatusTone::Neutral,
        spec_status_tone(checking_message()) == StatusTone::Neutral,
        spec_status_tone(downloading_message()) == StatusTone::Neutral,
        spec_status_tone(libraries_opened_message()) == StatusTone::Neutral,
        spec_status_tone(folder_failed_message(e)) == StatusTone::Neutral,
        spec_status_tone(open_failed_message(e)) == StatusTone::Neutral,
        spec_status_tone(Seq::empty()) == StatusTone::Neutral,
{
    reveal_strlit("✓ Settings saved successfully");
    reveal_strlit("✗ Save failed: ");
    reveal_strlit("✗ Update check failed to start: ");
    reveal_strlit("✗ Update install failed to start: ");
    reveal_strlit("↺ Settings reset");
    reveal_strlit("Checking for updates...");
    reveal_strlit("Downloading update...");
    reveal_strlit("WidgetLibraries opened");
    reveal_strlit("Folder error: ");
    reveal_strlit("Open failed: ");
    assert(save_failed_message(e)[0] == '✗');
    assert(check_failed_message(e)[0] == '✗');
    assert(install_failed_message(e)[0] == '✗');
    assert(folder_failed_message(e)[0] == 'F');
    assert(open_failed_message(e)[0] == 'O');
}

/// The rotation summary of a queue splits at any place into the summary of
/// the entries before it, one separator, and the summary of the entries
/// from there on; so every queued design is named, in queue order, with
/// one separator between neighbours.
pub proof fn law_summary_splits(q: Seq<Seq<char>>, k: int)
    requires
        0 < k < q.len(),
    ensures
        joined_titles(q) == joined_titles(q.take(k)) + title_separator() + joined_titles(
            q.skip(k),
        ),
    decreases q.len(),
{
    let p = q.drop_last();
    assert(q.skip(k).last() == q.last());
    if k == q.len() - 1 {
        assert(q.take(k) =~= p);
        assert(q.skip(k) =~= seq![q.last()]);
        assert(joined_titles(seq![q.last()]) == catalogue_entry_for(q.last()).title);
    } else {
        law_summary_splits(p, k);
        assert(p.take(k) =~= q.take(k));
        assert(q.skip(k).drop_last() =~= p.skip(k));
        assert(joined_titles(q.skip(k)) == joined_titles(p.skip(k)) + title_separator()
            + catalogue_entry_for(q.last()).title);
        assert(joined_titles(q) =~= joined_titles(q.take(k)) + title_separator() + joined_titles(
            q.skip(k),
        ));
    }
}

/// The summary of one design is its catalogue title, and that of no design
/// is empty.
pub proof fn law_summary_of_one(id: Seq<char>)
    ensures
        joined_titles(seq![id]) == catalogue_entry_for(id).title,
        joined_titles(Seq::empty()) == Seq::<char>::empty(),
{
}

/// The title of the entry at `i` stands in the summary right after the
/// summary of the entries before it and a separator, and is followed by a
/// separator and the summary of the entries after it.
pub proof fn law_summary_names_each_entry(q: Seq<Seq<char>>, i: int)
    requires
        0 <= i < q.len(),
    ensures
        i > 0 ==> joined_titles(q).subrange(
            (joined_titles(q.take(i)).len() + title_separator().len()) as int,
            (joined_titles(q.take(i)).len() + title_separator().len() + catalogue_entry_for(
                q[i],
            ).title.len()) as int,
        ) == catalogue_entry_for(q[i]).title,
        i == 0 ==> joined_titles(q).take(catalogue_entry_for(q[0]).title.len() as int)
            == catalogue_entry_for(q[0]).title,
{
    let t = catalogue_entry_for(q[i]).title;
    let rest = q.skip(i);
    // the part from `i` on starts with the title of q[i]
    if rest.len() == 1 {
        assert(rest =~= seq![q[i]]);
    } else {
        law_summary_splits(rest, 1);
        assert(rest.take(1) =~= seq![q[i]]);
    }
    assert(joined_titles(rest).take(t.len() as int) =~= t);
    if i > 0 {
        law_summary_splits(q, i);
        let pre = joined_titles(q.take(i)) + title_separator();
        assert(joined_titles(q) =~= pre + joined_titles(rest));
        assert(joined_titles(q).subrange(pre.len() as int, (pre.len() + t.len()) as int) =~= joined_titles(
            rest,
        ).take(t.len() as int));
    } else {
        assert(rest =~= q);
    }
}

} // verus!
