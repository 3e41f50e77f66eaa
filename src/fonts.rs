//! Registration of the application's own font face in the toolkit's font
//! definitions: first choice for proportional text, last fallback for
//! monospace text.
use vstd::prelude::*;
use egui::{FontData, FontDefinitions, FontFamily};

verus! {

/// Name under which the application's font face is registered.
pub const CUSTOM_FONT_NAME: &'static str = "chn";

#[verifier::external_type_specification]
#[verifier::external_body]
pub struct ExFontDefinitions(FontDefinitions);

#[verifier::external_type_specification]
#[verifier::external_body]
pub struct ExFontData(FontData);

/// The font names listed for proportional text, empty where the family has
/// no entry.
pub uninterp spec fn proportional_fonts(defs: FontDefinitions) -> Seq<Seq<char>>;

/// The font names listed for monospace text, empty where the family has no
/// entry.
pub uninterp spec fn monospace_fonts(defs: FontDefinitions) -> Seq<Seq<char>>;

/// The font data registered under each name, as its file's bytes and the
/// index of the face to use.
pub uninterp spec fn registered_fonts(defs: FontDefinitions) -> Map<Seq<char>, (Seq<u8>, u32)>;

/// The font names listed for each family named by the user, keyed by the
/// family's name.
pub uninterp spec fn named_families(defs: FontDefinitions) -> Map<Seq<char>, Seq<Seq<char>>>;

/// The file's bytes and the face index that font data holds.
pub uninterp spec fn font_data_contents(data: FontData) -> (Seq<u8>, u32);

/// The toolkit's stock proportional fonts, in order of priority.
pub open spec fn stock_proportional() -> Seq<Seq<char>> {
    seq!["Ubuntu-Light"@, "NotoEmoji-Regular"@, "emoji-icon-font"@]
}

/// The toolkit's stock monospace fonts, in order of priority.
pub open spec fn stock_monospace() -> Seq<Seq<char>> {
    seq!["Hack"@, "Ubuntu-Light"@, "NotoEmoji-Regular"@, "emoji-icon-font"@]
}

/// The names of the toolkit's stock font data.
pub open spec fn stock_font_names() -> Set<Seq<char>> {
    set!["Hack"@, "Ubuntu-Light"@, "NotoEmoji-Regular"@, "emoji-icon-font"@]
}

/// The views of a list of names.
pub open spec fn names_of(v: Seq<String>) -> Seq<Seq<char>> {
    v.map_values(|s: String| s@)
}

/// `names` with every entry equal to `name` taken out, order kept.
pub open spec fn without(names: Seq<Seq<char>>, name: Seq<char>) -> Seq<Seq<char>>
    decreases names.len(),
{
    if names.len() == 0 {
        names
    } else if names.last() == name {
        without(names.drop_last(), name)
    } else {
        without(names.drop_last(), name).push(names.last())
    }
}

/// `names` with `name` as its one first entry.
pub open spec fn with_first(names: Seq<Seq<char>>, name: Seq<char>) -> Seq<Seq<char>> {
    seq![name] + without(names, name)
}

/// `names` with `name` as its one last entry.
pub open spec fn with_last(names: Seq<Seq<char>>, name: Seq<char>) -> Seq<Seq<char>> {
    without(names, name).push(name)
}

/// `names` with `name` first and nowhere else.
pub open spec fn leads_once(names: Seq<Seq<char>>, name: Seq<char>) -> bool {
    &&& names.len() >= 1
    &&& names[0] == name
    &&& !names.drop_first().contains(name)
}

/// `names` with `name` last and nowhere else.
pub open spec fn trails_once(names: Seq<Seq<char>>, name: Seq<char>) -> bool {
    &&& names.len() >= 1
    &&& names.last() == name
    &&& !names.drop_last().contains(name)
}

/// Relies on `FontDefinitions::default` with the toolkit's default fonts
/// enabled: four stock font files, listed for the two built-in families.
#[verifier::external_body]
fn stock_font_definitions() -> (r: FontDefinitions)
    ensures
        proportional_fonts(r) == stock_proportional(),
        monospace_fonts(r) == stock_monospace(),
        named_families(r).dom() == Set::<Seq<char>>::empty(),
        registered_fonts(r).dom() == stock_font_names(),
{
    FontDefinitions::default()
}

/// Relies on `BTreeMap::get` over `FontDefinitions::families`: the list stored
/// for the family, or none.
#[verifier::external_body]
fn family_list(defs: &FontDefinitions, monospace: bool) -> (r: Vec<String>)
    ensures
        names_of(r@) == if monospace {
            monospace_fonts(*defs)
        } else {
            proportional_fonts(*defs)
        },
{
    let family = if monospace { FontFamily::Monospace } else { FontFamily::Proportional };
    defs.families.get(&family).cloned().unwrap_or_default()
}

/// Relies on `BTreeMap::insert` over `FontDefinitions::families`: the family's
/// list is replaced, the other entries stay.
#[verifier::external_body]
fn set_family_list(defs: &mut FontDefinitions, monospace: bool, list: Vec<String>)
    ensures
        monospace ==> monospace_fonts(*final(defs)) == names_of(list@),
        monospace ==> proportional_fonts(*final(defs)) == proportional_fonts(*old(defs)),
        !monospace ==> proportional_fonts(*final(defs)) == names_of(list@),
        !monospace ==> monospace_fonts(*final(defs)) == monospace_fonts(*old(defs)),
        named_families(*final(defs)) == named_families(*old(defs)),
        registered_fonts(*final(defs)) == registered_fonts(*old(defs)),
{
    let family = if monospace { FontFamily::Monospace } else { FontFamily::Proportional };
    defs.families.insert(family, list);
}

/// Relies on `BTreeMap::insert` over `FontDefinitions::font_data`: the name is
/// registered, the families stay.
#[verifier::external_body]
fn insert_font_data(defs: &mut FontDefinitions, name: String, data: FontData)
    ensures
        registered_fonts(*final(defs)) == registered_fonts(*old(defs)).insert(
            name@,
            font_data_contents(data),
        ),
        proportional_fonts(*final(defs)) == proportional_fonts(*old(defs)),
        monospace_fonts(*final(defs)) == monospace_fonts(*old(defs)),
        named_families(*final(defs)) == named_families(*old(defs)),
{
    defs.font_data.insert(name, data);
}

/// Relies on `FontData::from_static`: the bytes are kept as they are, with
/// face index 0.
#[verifier::external_body]
fn font_data_from_static(bytes: &'static [u8]) -> (r: FontData)
    ensures
        font_data_contents(r) == (bytes@, 0u32),
{
    FontData::from_static(bytes)
}

/// `list` without the entries equal to `name`.
pub fn remove_name(list: &Vec<String>, name: &String) -> (r: Vec<String>)
    ensures
        names_of(r@) == without(names_of(list@), name@),
{
    let mut out: Vec<String> = Vec::new();
    let mut i: usize = 0;
    while i < list.len()
        invariant
            i <= list.len(),
            names_of(out@) == without(names_of(list@.take(i as int)), name@),
        decreases list.len() - i,
    {
        let item = &list[i];
        let ghost seen = names_of(list@.take(i as int));
        let ghost next = names_of(list@.take(i + 1));
        assert(next.drop_last() =~= seen);
        assert(next.last() == item@);
        let same = *item == *name;
        assert(same == (item@ == name@));
        if !same {
            let ghost before = out@;
            out.push(item.clone());
            assert(names_of(out@) =~= names_of(before).push(item@));
        }
        assert(names_of(out@) == without(next, name@));
        i = i + 1;
    }
    assert(list@.take(list.len() as int) == list@);
    out
}

/// `list` with `name` moved to, or put at, its front.
pub fn move_to_front(list: &Vec<String>, name: &String) -> (r: Vec<String>)
    ensures
        names_of(r@) == with_first(names_of(list@), name@),
{
    let rest = remove_name(list, name);
    let mut out: Vec<String> = Vec::new();
    out.push(name.clone());
    assert(names_of(out@) =~= seq![name@] + names_of(rest@.take(0)));
    let mut i: usize = 0;
    while i < rest.len()
        invariant
            i <= rest.len(),
            names_of(out@) == seq![name@] + names_of(rest@.take(i as int)),
        decreases rest.len() - i,
    {
        let ghost before = out@;
        out.push(rest[i].clone());
        assert(names_of(out@) =~= names_of(before).push(rest@[i as int]@));
        assert(names_of(rest@.take(i + 1)) =~= names_of(rest@.take(i as int)).push(rest@[i as int]@));
        i = i + 1;
    }
    assert(rest@.take(rest.len() as int) == rest@);
    out
}

/// `list` with `name` moved to, or put at, its end.
pub fn move_to_back(list: &Vec<String>, name: &String) -> (r: Vec<String>)
    ensures
        names_of(r@) == with_last(names_of(list@), name@),
{
    let mut out = remove_name(list, name);
    let ghost before = out@;
    out.push(name.clone());
    assert(names_of(out@) =~= names_of(before).push(name@));
    out
}

/// Registers `data` under `name`, puts `name` first for proportional text and
/// last for monospace text. An earlier entry of `name` in either list is
/// taken out, so that the name stands once in each. Other font data and
/// the user-named families stay as they were.
pub fn install_font(defs: &mut FontDefinitions, name: String, data: FontData)
    ensures
        proportional_fonts(*final(defs)) == with_first(proportional_fonts(*old(defs)), name@),
        monospace_fonts(*final(defs)) == with_last(monospace_fonts(*old(defs)), name@),
        registered_fonts(*final(defs)) == registered_fonts(*old(defs)).insert(
            name@,
            font_data_contents(data),
        ),
        named_families(*final(defs)) == named_families(*old(defs)),
{
    let proportional = family_list(defs, false);
    let proportional = move_to_front(&proportional, &name);
    set_family_list(defs, false, proportional);
    let monospace = family_list(defs, true);
    let monospace = move_to_back(&monospace, &name);
    set_family_list(defs, true, monospace);
    insert_font_data(defs, name, data);
}

/// The toolkit's stock fonts with the font file `font` (face 0) installed
/// under `CUSTOM_FONT_NAME`: first for proportional text, ahead of the stock
/// fonts, and last for monospace text, behind them.
pub fn custom_font_definitions(font: &'static [u8]) -> (r: FontDefinitions)
    ensures
        proportional_fonts(r) == seq![CUSTOM_FONT_NAME@] + stock_proportional(),
        monospace_fonts(r) == stock_monospace().push(CUSTOM_FONT_NAME@),
        named_families(r).dom() == Set::<Seq<char>>::empty(),
        registered_fonts(r).dom() == stock_font_names().insert(CUSTOM_FONT_NAME@),
        registered_fonts(r)[CUSTOM_FONT_NAME@] == (font@, 0u32),
        leads_once(proportional_fonts(r), CUSTOM_FONT_NAME@),
        trails_once(monospace_fonts(r), CUSTOM_FONT_NAME@),
{
    let mut defs = stock_font_definitions();
    let data = font_data_from_static(font);
    install_font(&mut defs, String::from_str(CUSTOM_FONT_NAME), data);
    proof {
        reveal_strlit("chn");
        reveal_strlit("Hack");
        reveal_strlit("Ubuntu-Light");
        reveal_strlit("NotoEmoji-Regular");
        reveal_strlit("emoji-icon-font");
        let name = CUSTOM_FONT_NAME@;
        assert(!stock_proportional().contains(name)) by {
            assert forall|k: int| 0 <= k < 3 implies stock_proportional()[k] != name by {
                assert(stock_proportional()[k].len() != name.len());
            }
        }
        assert(!stock_monospace().contains(name)) by {
            assert forall|k: int| 0 <= k < 4 implies stock_monospace()[k] != name by {
                assert(stock_monospace()[k].len() != name.len());
            }
        }
        lemma_without_absent(stock_proportional(), name);
        lemma_without_absent(stock_monospace(), name);
        lemma_with_first_leads(stock_proportional(), name);
        lemma_with_last_trails(stock_monospace(), name);
    }
    defs
}

proof fn lemma_without_excludes(names: Seq<Seq<char>>, name: Seq<char>)
    ensures
        !without(names, name).contains(name),
    decreases names.len(),
{
    if names.len() > 0 {
        lemma_without_excludes(names.drop_last(), name);
        let rest = without(names.drop_last(), name);
        if names.last() != name {
            assert forall|k: int| 0 <= k < rest.len() + 1 implies rest.push(names.last())[k] != name by {
                if k < rest.len() {
                    assert(rest.push(names.last())[k] == rest[k]);
                }
            }
        }
    }
}

proof fn lemma_without_absent(names: Seq<Seq<char>>, name: Seq<char>)
    requires
        !names.contains(name),
    ensures
        without(names, name) == names,
    decreases names.len(),
{
    if names.len() > 0 {
        assert(names.last() == names[names.len() - 1]);
        assert(!names.drop_last().contains(name)) by {
            if names.drop_last().contains(name) {
                let k = choose|k: int| 0 <= k < names.drop_last().len() && names.drop_last()[k] == name;
                assert(names[k] == name);
            }
        }
        lemma_without_absent(names.drop_last(), name);
        assert(names.drop_last().push(names.last()) =~= names);
    }
}

proof fn lemma_without_leading(names: Seq<Seq<char>>, name: Seq<char>)
    ensures
        without(seq![name] + names, name) == without(names, name),
    decreases names.len(),
{
    let whole = seq![name] + names;
    if names.len() == 0 {
        assert(whole.drop_last() =~= Seq::<Seq<char>>::empty());
        assert(whole.last() == name);
        assert(without(whole, name) == without(whole.drop_last(), name));
        assert(without(names, name) =~= Seq::<Seq<char>>::empty());
    } else {
        assert(whole.drop_last() =~= seq![name] + names.drop_last());
        assert(whole.last() == names.last());
        lemma_without_leading(names.drop_last(), name);
    }
}

proof fn lemma_with_first_leads(names: Seq<Seq<char>>, name: Seq<char>)
    ensures
        leads_once(with_first(names, name), name),
{
    lemma_without_excludes(names, name);
    assert(with_first(names, name).drop_first() =~= without(names, name));
}

proof fn lemma_with_last_trails(names: Seq<Seq<char>>, name: Seq<char>)
    ensures
        trails_once(with_last(names, name), name),
{
    lemma_without_excludes(names, name);
    assert(with_last(names, name).drop_last() =~= without(names, name));
}

/// Installing the same font twice leaves both lists as one installation
/// does: the name stands once, first among the proportional fonts and last
/// among the monospace fonts.
pub proof fn lemma_install_font_idempotent(
    proportional: Seq<Seq<char>>,
    monospace: Seq<Seq<char>>,
    name: Seq<char>,
)
    ensures
        with_first(with_first(proportional, name), name) == with_first(proportional, name),
        with_last(with_last(monospace, name), name) == with_last(monospace, name),
        leads_once(with_first(with_first(proportional, name), name), name),
        trails_once(with_last(with_last(monospace, name), name), name),
{
    lemma_without_excludes(proportional, name);
    lemma_without_leading(without(proportional, name), name);
    lemma_without_absent(without(proportional, name), name);
    lemma_without_excludes(monospace, name);
    lemma_without_absent(without(monospace, name), name);
    let once = with_last(monospace, name);
    assert(once.drop_last() =~= without(monospace, name));
    assert(without(once, name) == without(once.drop_last(), name));
    lemma_with_first_leads(proportional, name);
    lemma_with_last_trails(monospace, name);
}

} // verus!
