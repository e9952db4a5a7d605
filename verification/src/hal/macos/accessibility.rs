//! Accessibility inspection: the AppleScript that lists a window's elements, and the
//! parsing of its output.
use vstd::prelude::*;
use vstd::string::StringExecFns;
use crate::utils::text::{
    integer_in_text, lemma_find_from_bounds, parse_integer, split_from, split_pieces, split_str, trim, trimmed,
};

verus! {

/// The AppleScript that lists the title and elements of the first window of the process
/// `target` (or whose name contains it).
pub open spec fn ui_script_for(target: Seq<char>) -> Seq<char> {
    "\n        tell application \"System Events\"\n            set p to first process whose name is \""@ + target + "\" or name contains \""@ + target
        + "\"\n            set win to first window of p\n            set winTitle to name of win\n            set elemList to {}\n            try\n                set uiElems to entire contents of win\n                repeat with e in uiElems\n                    try\n                        set eRole to role of e\n                        set eTitle to name of e\n                        set eVal to value of e\n                        set eBounds to \"\"\n                        try\n                            set {px, py} to position of e\n                            set {sw, sh} to size of e\n                            set eBounds to ((px as integer) as string) & \";\" & ((py as integer) as string) & \";\" & ((sw as integer) as string) & \";\" & ((sh as integer) as string)\n                        end try\n                        set end of elemList to (eRole & \"::\" & eTitle & \"::\" & eVal & \"::\" & eBounds)\n                    end try\n                end repeat\n            end try\n            return winTitle & \"|||\" & (elemList as string)\n        end tell\n        "@
}

/// The inspection script for an application, or for "System Events" when none is named.
pub fn ui_inspection_script(app_name: Option<&str>) -> (r: String)
    ensures
        r@ == ui_script_for(
            match app_name {
                Some(a) => a@,
                None => "System Events"@,
            },
        ),
{
    let target = match app_name {
        Some(a) => a,
        None => "System Events",
    };
    String::from_str("\n        tell application \"System Events\"\n            set p to first process whose name is \"").concat(target).concat("\" or name contains \"").concat(target).concat(
        "\"\n            set win to first window of p\n            set winTitle to name of win\n            set elemList to {}\n            try\n                set uiElems to entire contents of win\n                repeat with e in uiElems\n                    try\n                        set eRole to role of e\n                        set eTitle to name of e\n                        set eVal to value of e\n                        set eBounds to \"\"\n                        try\n                            set {px, py} to position of e\n                            set {sw, sh} to size of e\n                            set eBounds to ((px as integer) as string) & \";\" & ((py as integer) as string) & \";\" & ((sw as integer) as string) & \";\" & ((sh as integer) as string)\n                        end try\n                        set end of elemList to (eRole & \"::\" & eTitle & \"::\" & eVal & \"::\" & eBounds)\n                    end try\n                end repeat\n            end try\n            return winTitle & \"|||\" & (elemList as string)\n        end tell\n        ",
    )
}

/// The trimmed text, when it is not empty.
pub open spec fn nonempty_trimmed(piece: Option<Seq<char>>) -> Option<Seq<char>> {
    match piece {
        Some(p) => if trimmed(p).len() > 0 {
            Some(trimmed(p))
        } else {
            None
        },
        None => None,
    }
}

/// The trimmed output of a command, when it is not empty.
pub fn display_value(output: &str) -> (r: Option<String>)
    ensures
        opt_text(r) == nonempty_trimmed(Some(output@)),
{
    let t = trim(output);
    if t.is_empty() {
        None
    } else {
        Some(String::from_str(t))
    }
}

/// The characters of an optional string.
pub open spec fn opt_text(s: Option<String>) -> Option<Seq<char>> {
    match s {
        Some(x) => Some(x@),
        None => None,
    }
}

/// The `i`-th piece, if there is one.
pub open spec fn piece_at(pieces: Seq<Seq<char>>, i: int) -> Option<Seq<char>> {
    if 0 <= i < pieces.len() {
        Some(pieces[i])
    } else {
        None
    }
}

/// An element of an inspected window: its role, its title and value when not empty, and
/// its bounds (left, top, width, height, in screen points) when the script could read them.
#[derive(Debug)]
pub struct UiElement {
    pub role: String,
    pub title: Option<String>,
    pub value: Option<String>,
    pub bounds: Option<(i64, i64, i64, i64)>,
}

/// The mathematical form of an element.
pub struct UiElementView {
    pub role: Seq<char>,
    pub title: Option<Seq<char>>,
    pub value: Option<Seq<char>>,
    pub bounds: Option<(i64, i64, i64, i64)>,
}

impl UiElement {
    pub open spec fn view(self) -> UiElementView {
        UiElementView {
            role: self.role@,
            title: opt_text(self.title),
            value: opt_text(self.value),
            bounds: self.bounds,
        }
    }
}

/// The bounds a piece `x;y;width;height` gives: four integers, each of a magnitude that fits
/// an `i64`; none for any other text.
pub open spec fn bounds_text(piece: Option<Seq<char>>) -> Option<(i64, i64, i64, i64)> {
    match piece {
        Some(p) => {
            let parts = split_pieces(trimmed(p), ";"@);
            if parts.len() == 4 && integer_in_text(parts[0]) is Some && integer_in_text(parts[1]) is Some
                && integer_in_text(parts[2]) is Some && integer_in_text(parts[3]) is Some {
                Some(
                    (
                        integer_in_text(parts[0])->0,
                        integer_in_text(parts[1])->0,
                        integer_in_text(parts[2])->0,
                        integer_in_text(parts[3])->0,
                    ),
                )
            } else {
                None
            }
        },
        None => None,
    }
}

/// The element an item `role::title::value::bounds` describes.
pub open spec fn element_of(item: Seq<char>) -> UiElementView {
    let sub = split_pieces(item, "::"@);
    UiElementView {
        role: trimmed(sub[0]),
        title: nonempty_trimmed(piece_at(sub, 1)),
        value: nonempty_trimmed(piece_at(sub, 2)),
        bounds: bounds_text(piece_at(sub, 3)),
    }
}

/// The elements of a list of items, in order, leaving out items without a role.
pub open spec fn elements_of(items: Seq<Seq<char>>) -> Seq<UiElementView>
    decreases items.len(),
{
    if items.len() == 0 {
        Seq::empty()
    } else {
        elements_of(items.drop_last()) + if element_of(items.last()).role.len() > 0 {
            seq![element_of(items.last())]
        } else {
            Seq::empty()
        }
    }
}

/// The window title in an inspection output `title|||items`.
pub open spec fn listing_title(output: Seq<char>) -> Seq<char> {
    trimmed(split_pieces(output, "|||"@)[0])
}

/// The elements in an inspection output: the comma-separated items after `|||`.
pub open spec fn listing_elements(output: Seq<char>) -> Seq<UiElementView> {
    match piece_at(split_pieces(output, "|||"@), 1) {
        Some(list) => elements_of(split_pieces(list, ","@)),
        None => Seq::empty(),
    }
}

/// The title and elements of an inspected window.
#[derive(Debug)]
pub struct UiListing {
    pub title: String,
    pub elements: Vec<UiElement>,
}

/// The views of a sequence of elements.
pub open spec fn elements_view(v: Seq<UiElement>) -> Seq<UiElementView> {
    Seq::new(v.len(), |i: int| v[i].view())
}

/// `split` always yields at least one piece.
pub proof fn lemma_split_nonempty(s: Seq<char>, sep: Seq<char>, start: int)
    requires
        sep.len() > 0,
        0 <= start <= s.len(),
    ensures
        split_from(s, sep, start).len() >= 1,
{
    lemma_find_from_bounds(s, sep, start);
}

fn optional_piece(pieces: &Vec<String>, i: usize) -> (r: Option<String>)
    ensures
        opt_text(r) == nonempty_trimmed(piece_at(Seq::new(pieces@.len(), |k: int| pieces@[k]@), i as int)),
{
    if i < pieces.len() {
        display_value(pieces[i].as_str())
    } else {
        None
    }
}

fn bounds_piece(pieces: &Vec<String>) -> (r: Option<(i64, i64, i64, i64)>)
    ensures
        r == bounds_text(piece_at(Seq::new(pieces@.len(), |k: int| pieces@[k]@), 3)),
{
    proof {
        reveal_strlit(";");
    }
    if pieces.len() <= 3 {
        return None;
    }
    let t = trim(pieces[3].as_str());
    let parts = split_str(t, ";");
    let ghost pv = Seq::new(parts@.len(), |k: int| parts@[k]@);
    if parts.len() != 4 {
        return None;
    }
    assert(pv[0] == parts@[0]@ && pv[1] == parts@[1]@ && pv[2] == parts@[2]@ && pv[3] == parts@[3]@);
    match (
        parse_integer(parts[0].as_str()),
        parse_integer(parts[1].as_str()),
        parse_integer(parts[2].as_str()),
        parse_integer(parts[3].as_str()),
    ) {
        (Some(x), Some(y), Some(w), Some(h)) => Some((x, y, w, h)),
        _ => None,
    }
}

fn element_from(item: &str) -> (r: UiElement)
    ensures
        r.view() == element_of(item@),
{
    proof {
        reveal_strlit("::");
        lemma_split_nonempty(item@, "::"@, 0);
    }
    let sub = split_str(item, "::");
    let role = String::from_str(trim(sub[0].as_str()));
    let title = optional_piece(&sub, 1);
    let value = optional_piece(&sub, 2);
    let bounds = bounds_piece(&sub);
    UiElement { role, title, value, bounds }
}

/// Parses the output of the inspection script.
pub fn parse_ui_listing(output: &str) -> (r: UiListing)
    ensures
        r.title@ == listing_title(output@),
        elements_view(r.elements@) == listing_elements(output@),
{
    proof {
        reveal_strlit("|||");
        reveal_strlit(",");
        lemma_split_nonempty(output@, "|||"@, 0);
    }
    let parts = split_str(output, "|||");
    let ghost pv = Seq::new(parts@.len(), |k: int| parts@[k]@);
    let title = String::from_str(trim(parts[0].as_str()));
    let mut elements: Vec<UiElement> = Vec::new();
    if parts.len() > 1 {
        let items = split_str(parts[1].as_str(), ",");
        let ghost iv = Seq::new(items@.len(), |k: int| items@[k]@);
        let mut i: usize = 0;
        while i < items.len()
            invariant
                iv == Seq::new(items@.len(), |k: int| items@[k]@),
                i <= items@.len(),
                elements_view(elements@) == elements_of(iv.subrange(0, i as int)),
            decreases items@.len() - i,
        {
            let ghost before = elements@;
            assert(iv.subrange(0, i + 1).drop_last() =~= iv.subrange(0, i as int));
            assert(iv.subrange(0, i + 1).last() == items@[i as int]@);
            let e = element_from(items[i].as_str());
            if e.role.as_str().is_empty() {
                assert(elements_view(elements@) =~= elements_view(before) + Seq::<UiElementView>::empty());
            } else {
                elements.push(e);
                assert(elements_view(elements@) =~= elements_view(before).push(element_of(items@[i as int]@)));
            }
            i = i + 1;
        }
        assert(iv.subrange(0, iv.len() as int) =~= iv);
    } else {
        assert(elements_view(elements@) =~= Seq::<UiElementView>::empty());
    }
    UiListing { title, elements }
}

/// What an inspection reports: when the script ran, the window (role `AXWindow`) with its
/// title and, when the depth reaches one level below the window, its elements; when it did
/// not, the application itself (role `AXApplication`, titled by its name) with no elements.
#[derive(Debug)]
pub struct UiInspection {
    pub role: String,
    pub title: Option<String>,
    pub elements: Vec<UiElement>,
}

/// The inspection result for the script's output (none when the script failed), at most
/// `max_depth` levels deep.
pub fn inspection_result(app_name: Option<&str>, output: Option<&str>, max_depth: u32) -> (r: UiInspection)
    ensures
        match output {
            Some(o) => {
                &&& r.role@ == "AXWindow"@
                &&& opt_text(r.title) == Some(listing_title(o@))
                &&& elements_view(r.elements@) == if max_depth >= 1 {
                    listing_elements(o@)
                } else {
                    Seq::empty()
                }
            },
            None => {
                &&& r.role@ == "AXApplication"@
                &&& opt_text(r.title) == match app_name {
                    Some(a) => Some(a@),
                    None => None::<Seq<char>>,
                }
                &&& r.elements@.len() == 0
            },
        },
{
    match output {
        Some(o) => {
            let listing = parse_ui_listing(o);
            let elements = if max_depth >= 1 {
                listing.elements
            } else {
                let none: Vec<UiElement> = Vec::new();
                assert(elements_view(none@) =~= Seq::<UiElementView>::empty());
                none
            };
            UiInspection { role: String::from_str("AXWindow"), title: Some(listing.title), elements }
        },
        None => UiInspection {
            role: String::from_str("AXApplication"),
            title: match app_name {
                Some(a) => Some(String::from_str(a)),
                None => None,
            },
            elements: Vec::new(),
        },
    }
}

} // verus!
