//! The equations that tooltips show: their registry, where their images are kept, and
//! how an image is tinted to the colour of the surrounding text.

use vstd::prelude::*;
use vstd::string::StringExecFns;

verus! {

/// One equation of the registry.
#[derive(Debug, Clone)]
pub struct Equation {
    pub id: String,
    pub latex: String,
    pub description: String,
    pub usage: String,
}

/// An equation as text.
pub struct EquationView {
    pub id: Seq<char>,
    pub latex: Seq<char>,
    pub description: Seq<char>,
    pub usage: Seq<char>,
}

impl View for Equation {
    type V = EquationView;

    open spec fn view(&self) -> EquationView {
        EquationView {
            id: self.id@,
            latex: self.latex@,
            description: self.description@,
            usage: self.usage@,
        }
    }
}

/// The equations by their identifiers.
pub struct EquationRegistry {
    equations: Vec<Equation>,
}

impl View for EquationRegistry {
    type V = Map<Seq<char>, EquationView>;

    closed spec fn view(&self) -> Map<Seq<char>, EquationView> {
        Map::new(
            |id: Seq<char>| exists|i: int| 0 <= i < self.equations@.len() && self.equations@[i].id@ == id,
            |id: Seq<char>|
                self.equations@[choose|i: int|
                    0 <= i < self.equations@.len() && self.equations@[i].id@ == id]@,
        )
    }
}

/// The registry that a list of equations loads to: each equation under its identifier,
/// a later one in place of an earlier one with the same identifier.
pub open spec fn registry_of(list: Seq<EquationView>) -> Map<Seq<char>, EquationView>
    decreases list.len(),
{
    if list.len() == 0 {
        Map::empty()
    } else {
        registry_of(list.drop_last()).insert(list.last().id, list.last())
    }
}

/// The texts of a list of equations.
pub open spec fn texts_of(list: Seq<Equation>) -> Seq<EquationView> {
    list.map_values(|e: Equation| e@)
}

/// Where the registry file is kept.
pub open spec fn spec_registry_path() -> Seq<char> {
    "scripts/equations.json"@
}

/// Where the image of the equation `equation_id` is kept.
pub open spec fn spec_svg_path(equation_id: Seq<char>) -> Seq<char> {
    "assets/equations/"@ + equation_id + ".svg"@
}

/// The name under which the texture of the equation `equation_id` is registered.
pub open spec fn spec_texture_name(equation_id: Seq<char>) -> Seq<char> {
    "equation_"@ + equation_id
}

/// The colour in which the images are drawn, as it stands in their text.
pub open spec fn spec_drawn_colour() -> Seq<char> {
    "rgb(0%, 0%, 0%)"@
}

/// A decimal digit as text.
pub open spec fn spec_digit(d: int) -> Seq<char> {
    if d == 0 {
        "0"@
    } else if d == 1 {
        "1"@
    } else if d == 2 {
        "2"@
    } else if d == 3 {
        "3"@
    } else if d == 4 {
        "4"@
    } else if d == 5 {
        "5"@
    } else if d == 6 {
        "6"@
    } else if d == 7 {
        "7"@
    } else if d == 8 {
        "8"@
    } else {
        "9"@
    }
}

/// A colour channel in tenths of a percent of full intensity, rounded to the nearest.
pub open spec fn spec_tenths(channel: u8) -> int {
    (channel * 2000 + 255) / 510
}

/// A number of tenths below 1001 as a decimal with one place: `100.0`, `50.2`, `0.0`.
pub open spec fn spec_one_place(tenths: int) -> Seq<char> {
    let whole = tenths / 10;
    let leading = if whole >= 100 {
        spec_digit(whole / 100) + spec_digit(whole / 10 % 10)
    } else if whole >= 10 {
        spec_digit(whole / 10)
    } else {
        Seq::<char>::empty()
    };
    leading + spec_digit(whole % 10) + "."@ + spec_digit(tenths % 10)
}

/// A colour as it is written into an image: each channel as a percentage with one
/// decimal place.
pub open spec fn spec_colour_text(red: u8, green: u8, blue: u8) -> Seq<char> {
    "rgb("@ + spec_one_place(spec_tenths(red)) + "%, "@ + spec_one_place(spec_tenths(green))
        + "%, "@ + spec_one_place(spec_tenths(blue)) + "%)"@
}

/// `text` with every occurrence of `pattern` replaced by `replacement`, the occurrences
/// taken from the left and not overlapping.
pub open spec fn spec_replace(text: Seq<char>, pattern: Seq<char>, replacement: Seq<char>) -> Seq<
    char,
>
    recommends
        pattern.len() > 0,
    decreases text.len(),
{
    if pattern.len() == 0 || text.len() < pattern.len() {
        text
    } else if text.subrange(0, pattern.len() as int) == pattern {
        replacement + spec_replace(
            text.subrange(pattern.len() as int, text.len() as int),
            pattern,
            replacement,
        )
    } else {
        seq![text[0]] + spec_replace(text.subrange(1, text.len() as int), pattern, replacement)
    }
}

/// `str::replace` of the standard library, for a pattern that is not empty: a new
/// string in which every match of `pattern` in `text` is replaced by `replacement`.
/// The matches are those that a search from the left finds, each looked for from
/// where the one before has ended. Nothing of this is proved here.
#[verifier::external_body]
fn replace_all(text: &str, pattern: &str, replacement: &str) -> (replaced: String)
    requires
        pattern@.len() > 0,
    ensures
        replaced@ == spec_replace(text@, pattern@, replacement@),
{
    text.replace(pattern, replacement)
}

/// Where the registry file is kept.
pub fn registry_path() -> (path: &'static str)
    ensures
        path@ == spec_registry_path(),
{
    "scripts/equations.json"
}

/// Where the image of the equation `equation_id` is kept.
pub fn svg_path(equation_id: &str) -> (path: String)
    ensures
        path@ == spec_svg_path(equation_id@),
{
    let mut path = String::from_str("assets/equations/");
    path.append(equation_id);
    path.append(".svg");
    path
}

/// The name under which the texture of the equation `equation_id` is registered.
pub fn texture_name(equation_id: &str) -> (name: String)
    ensures
        name@ == spec_texture_name(equation_id@),
{
    let mut name = String::from_str("equation_");
    name.append(equation_id);
    name
}

fn digit(d: u32) -> (text: &'static str)
    requires
        d < 10,
    ensures
        text@ == spec_digit(d as int),
{
    if d == 0 {
        "0"
    } else if d == 1 {
        "1"
    } else if d == 2 {
        "2"
    } else if d == 3 {
        "3"
    } else if d == 4 {
        "4"
    } else if d == 5 {
        "5"
    } else if d == 6 {
        "6"
    } else if d == 7 {
        "7"
    } else if d == 8 {
        "8"
    } else {
        "9"
    }
}

/// A colour channel as a percentage of full intensity with one decimal place.
pub fn channel_percentage(channel: u8) -> (text: String)
    ensures
        text@ == spec_one_place(spec_tenths(channel)),
{
    let scaled: u32 = channel as u32;
    let tenths: u32 = (scaled * 2000 + 255) / 510;
    let whole: u32 = tenths / 10;
    let mut text = String::new();
    if whole >= 100 {
        text.append(digit(whole / 100));
        text.append(digit(whole / 10 % 10));
    } else if whole >= 10 {
        text.append(digit(whole / 10));
    }
    text.append(digit(whole % 10));
    text.append(".");
    text.append(digit(tenths % 10));
    assert(text@ =~= spec_one_place(spec_tenths(channel)));
    text
}

/// A colour as it is written into an image.
pub fn colour_text(red: u8, green: u8, blue: u8) -> (text: String)
    ensures
        text@ == spec_colour_text(red, green, blue),
{
    let mut text = String::from_str("rgb(");
    text.append(channel_percentage(red).as_str());
    text.append("%, ");
    text.append(channel_percentage(green).as_str());
    text.append("%, ");
    text.append(channel_percentage(blue).as_str());
    text.append("%)");
    text
}

/// Tints the image `svg` to a text colour: everything drawn in black is drawn in that
/// colour instead.
pub fn recolour_svg(svg: &str, red: u8, green: u8, blue: u8) -> (tinted: String)
    ensures
        tinted@ == spec_replace(svg@, spec_drawn_colour(), spec_colour_text(red, green, blue)),
{
    let drawn = "rgb(0%, 0%, 0%)";
    proof {
        reveal_strlit("rgb(0%, 0%, 0%)");
    }
    let colour = colour_text(red, green, blue);
    replace_all(svg, drawn, colour.as_str())
}

impl EquationRegistry {
    /// Well-formedness: no identifier is held twice.
    pub closed spec fn wf(&self) -> bool {
        forall|i: int, j: int|
            0 <= i < j < self.equations@.len() ==> self.equations@[i].id@ != self.equations@[j].id@
    }

    /// An empty registry.
    pub fn new() -> (registry: Self)
        ensures
            registry.wf(),
            registry@ == Map::<Seq<char>, EquationView>::empty(),
    {
        let registry = EquationRegistry { equations: Vec::new() };
        assert(registry@ =~= Map::<Seq<char>, EquationView>::empty());
        registry
    }

    fn position(&self, equation_id: &str) -> (found: Option<usize>)
        ensures
            match found {
                Some(i) => i < self.equations@.len() && self.equations@[i as int].id@ == equation_id@,
                None => forall|i: int|
                    0 <= i < self.equations@.len() ==> self.equations@[i].id@ != equation_id@,
            },
    {
        let probe = String::from_str(equation_id);
        let mut i: usize = 0;
        while i < self.equations.len()
            invariant
                i <= self.equations@.len(),
                probe@ == equation_id@,
                forall|j: int| 0 <= j < i ==> self.equations@[j].id@ != equation_id@,
            decreases self.equations@.len() - i,
        {
            if self.equations[i].id == probe {
                return Some(i);
            }
            i = i + 1;
        }
        None
    }

    /// Forgets every equation.
    pub fn clear(&mut self)
        ensures
            final(self).wf(),
            final(self)@ == Map::<Seq<char>, EquationView>::empty(),
    {
        self.equations.clear();
        assert(self@ =~= Map::<Seq<char>, EquationView>::empty());
    }

    /// Files an equation under its identifier, in place of the one that was there.
    pub fn insert(&mut self, equation: Equation)
        requires
            old(self).wf(),
        ensures
            final(self).wf(),
            final(self)@ == old(self)@.insert(equation.id@, equation@),
    {
        let ghost before = self.equations@;
        let ghost key = equation.id@;
        let ghost text = equation@;
        match self.position(equation.id.as_str()) {
            Some(at) => {
                self.equations[at] = equation;
                assert(self.equations@ == before.update(at as int, self.equations@[at as int]));
            },
            None => {
                self.equations.push(equation);
                assert(self.equations@ == before.push(self.equations@.last()));
            },
        }
        proof {
            let after = self.equations@;
            assert(forall|i: int| 0 <= i < before.len() && before[i].id@ != key ==> after[i] == before[i]);
            assert(self.wf());
            self.lemma_lookup();
            old(self).lemma_lookup();
            assert(self@.dom() =~= old(self)@.insert(key, text).dom()) by {
                assert forall|id: Seq<char>| old(self)@.insert(key, text).dom().contains(
                    id,
                ) implies self@.dom().contains(id) by {
                    if id != key {
                        let i = choose|i: int| 0 <= i < before.len() && before[i].id@ == id;
                        assert(after[i].id@ == id);
                    }
                }
                assert forall|id: Seq<char>| self@.dom().contains(id) implies old(self)@.insert(
                    key,
                    text,
                ).dom().contains(id) by {
                    let i = choose|i: int| 0 <= i < after.len() && after[i].id@ == id;
                    if id != key {
                        assert(i < before.len());
                        assert(before[i].id@ == id);
                    }
                }
            }
            assert forall|id: Seq<char>| self@.dom().contains(id) implies self@[id] == old(
                self,
            )@.insert(key, text)[id] by {
                let i = choose|i: int| 0 <= i < after.len() && after[i].id@ == id;
                if id != key {
                    assert(i < before.len());
                    assert(before[i].id@ == id);
                    assert(after[i] == before[i]);
                }
            }
            assert(self@ =~= old(self)@.insert(key, text));
        }
    }

    /// In a well-formed registry an identifier leads to the one equation that has it.
    proof fn lemma_lookup(&self)
        requires
            self.wf(),
        ensures
            forall|i: int|
                0 <= i < self.equations@.len() ==> self@.dom().contains(
                    #[trigger] self.equations@[i].id@,
                ) && self@[self.equations@[i].id@] == self.equations@[i]@,
            forall|id: Seq<char>| #[trigger]
                self@.dom().contains(id) ==> exists|i: int|
                    0 <= i < self.equations@.len() && self.equations@[i].id@ == id,
    {
        assert forall|i: int| 0 <= i < self.equations@.len() implies self@.dom().contains(
            #[trigger] self.equations@[i].id@,
        ) && self@[self.equations@[i].id@] == self.equations@[i]@ by {
            let id = self.equations@[i].id@;
            let j = choose|j: int| 0 <= j < self.equations@.len() && self.equations@[j].id@ == id;
            assert(j == i);
        }
    }

    /// Replaces the contents of the registry by a list of equations, each filed under
    /// its identifier; of two with the same identifier the later one stays.
    pub fn load(&mut self, equations: Vec<Equation>)
        ensures
            final(self).wf(),
            final(self)@ == registry_of(texts_of(equations@)),
    {
        self.clear();
        let ghost all = equations@;
        let mut remaining = equations;
        let mut taken: Vec<Equation> = Vec::new();
        // Taken from the back, then filed from the back of what was taken: in order.
        while remaining.len() > 0
            invariant
                remaining@.len() + taken@.len() == all.len(),
                forall|i: int| 0 <= i < remaining@.len() ==> remaining@[i] == all[i],
                forall|i: int|
                    0 <= i < taken@.len() ==> taken@[i] == all[all.len() - 1 - i],
                self.wf(),
                self@ == Map::<Seq<char>, EquationView>::empty(),
            decreases remaining@.len(),
        {
            let equation = remaining.pop().unwrap();
            taken.push(equation);
        }
        let ghost mut filed: Seq<Equation> = Seq::empty();
        while taken.len() > 0
            invariant
                filed.len() + taken@.len() == all.len(),
                forall|i: int| 0 <= i < filed.len() ==> filed[i] == all[i],
                forall|i: int|
                    0 <= i < taken@.len() ==> taken@[i] == all[all.len() - 1 - i],
                self.wf(),
                self@ == registry_of(texts_of(filed)),
            decreases taken@.len(),
        {
            let equation = taken.pop().unwrap();
            proof {
                let longer = filed.push(equation);
                assert(texts_of(longer).drop_last() =~= texts_of(filed));
                assert(texts_of(longer).last() == equation@);
                filed = longer;
            }
            self.insert(equation);
        }
        assert(filed =~= all);
    }

    /// The equation filed under `equation_id`, if there is one.
    pub fn get(&self, equation_id: &str) -> (found: Option<&Equation>)
        requires
            self.wf(),
        ensures
            match found {
                Some(equation) => self@.dom().contains(equation_id@) && equation@
                    == self@[equation_id@],
                None => !self@.dom().contains(equation_id@),
            },
    {
        proof {
            self.lemma_lookup();
        }
        match self.position(equation_id) {
            Some(at) => Some(&self.equations[at]),
            None => None,
        }
    }

    /// How many equations are filed.
    pub fn len(&self) -> (count: usize)
        requires
            self.wf(),
        ensures
            count == self@.dom().len(),
            self@.dom().finite(),
    {
        proof {
            self.lemma_counts();
        }
        self.equations.len()
    }

    /// A well-formed registry holds as many identifiers as equations.
    proof fn lemma_counts(&self)
        requires
            self.wf(),
        ensures
            self@.dom().finite(),
            self@.dom().len() == self.equations@.len(),
    {
        let ids = self.equations@.map_values(|e: Equation| e.id@);
        assert(ids.no_duplicates());
        ids.unique_seq_to_set();
        assert(ids.to_set() =~= self@.dom()) by {
            assert forall|id: Seq<char>| ids.to_set().contains(id) implies self@.dom().contains(
                id,
            ) by {
                let i = choose|i: int| 0 <= i < ids.len() && ids[i] == id;
                assert(self.equations@[i].id@ == id);
            }
            assert forall|id: Seq<char>| self@.dom().contains(id) implies ids.to_set().contains(
                id,
            ) by {
                let i = choose|i: int| 0 <= i < self.equations@.len() && self.equations@[i].id@ == id;
                assert(ids[i] == id);
            }
        }
    }
}

/// After loading, an equation of the list is found under its identifier unless a later
/// one of the list has the same, and nothing is found under an identifier that no
/// equation of the list has.
pub proof fn lemma_load_keeps_the_last(list: Seq<EquationView>, i: int)
    requires
        0 <= i < list.len(),
        forall|j: int| i < j < list.len() ==> list[j].id != list[i].id,
    ensures
        registry_of(list).dom().contains(list[i].id),
        registry_of(list)[list[i].id] == list[i],
    decreases list.len(),
{
    if i < list.len() - 1 {
        lemma_load_keeps_the_last(list.drop_last(), i);
    }
}

/// After loading, nothing is found under an identifier that no equation of the list has.
pub proof fn lemma_load_holds_only_the_list(list: Seq<EquationView>, id: Seq<char>)
    requires
        registry_of(list).dom().contains(id),
    ensures
        exists|i: int| 0 <= i < list.len() && list[i].id == id,
    decreases list.len(),
{
    if list.len() > 0 {
        if list.last().id == id {
            assert(list[list.len() - 1].id == id);
        } else {
            lemma_load_holds_only_the_list(list.drop_last(), id);
            let i = choose|i: int| 0 <= i < list.drop_last().len() && list.drop_last()[i].id == id;
            assert(list[i].id == id);
        }
    }
}

} // verus!
