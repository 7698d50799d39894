//! The five-element reading of a roll of ten-sided dice: each face falls
//! under one of five outcomes, fixed per element by the cycles of
//! generation and domination.

use vstd::prelude::*;

use crate::rollresult::{entry_values, RollHistory, RollResult};

verus! {

/// The five elements.
#[derive(Debug, Clone, Copy, PartialEq, Eq, Structural)]
pub enum Element {
    Fire,
    Earth,
    Metal,
    Water,
    Wood,
}

/// The two polarities of a loksyu outcome.
#[derive(Debug, Clone, Copy, PartialEq, Eq, Structural)]
pub enum Side {
    Yin,
    Yang,
}

/// What one face means for the rolling element.
#[derive(Debug, Clone, Copy, PartialEq, Eq, Structural)]
pub enum Outcome {
    /// The face falls under the rolling element itself.
    Success,
    /// Under the element that the rolling element generates.
    Lucky,
    /// Under the element that generates the rolling element.
    Ill,
    /// Under the element that the rolling element dominates.
    Loksyu(Side),
    /// Under the element that dominates the rolling element.
    TinJi,
}

/// Why a roll could not be read.
#[derive(Debug, Clone, Copy, PartialEq, Eq, Structural)]
pub enum CdeError {
    /// The roll is not exactly one group of plain dice.
    ShapeMismatch,
    /// The element name is not one of the five.
    MalformedInput,
}

/// The outcome of faces 1 to 10, in order, for each element.
pub open spec fn outcome_table(e: Element) -> Seq<Outcome> {
    match e {
        Element::Fire => seq![
            Outcome::TinJi,
            Outcome::Success,
            Outcome::Loksyu(Side::Yang),
            Outcome::Ill,
            Outcome::Lucky,
            Outcome::TinJi,
            Outcome::Success,
            Outcome::Loksyu(Side::Yin),
            Outcome::Ill,
            Outcome::Lucky,
        ],
        Element::Earth => seq![
            Outcome::Loksyu(Side::Yang),
            Outcome::Ill,
            Outcome::Lucky,
            Outcome::TinJi,
            Outcome::Success,
            Outcome::Loksyu(Side::Yin),
            Outcome::Ill,
            Outcome::Lucky,
            Outcome::TinJi,
            Outcome::Success,
        ],
        Element::Metal => seq![
            Outcome::Lucky,
            Outcome::TinJi,
            Outcome::Success,
            Outcome::Loksyu(Side::Yin),
            Outcome::Ill,
            Outcome::Lucky,
            Outcome::TinJi,
            Outcome::Success,
            Outcome::Loksyu(Side::Yang),
            Outcome::Ill,
        ],
        Element::Water => seq![
            Outcome::Success,
            Outcome::Loksyu(Side::Yin),
            Outcome::Ill,
            Outcome::Lucky,
            Outcome::TinJi,
            Outcome::Success,
            Outcome::Loksyu(Side::Yang),
            Outcome::Ill,
            Outcome::Lucky,
            Outcome::TinJi,
        ],
        Element::Wood => seq![
            Outcome::Ill,
            Outcome::Lucky,
            Outcome::TinJi,
            Outcome::Success,
            Outcome::Loksyu(Side::Yang),
            Outcome::Ill,
            Outcome::Lucky,
            Outcome::TinJi,
            Outcome::Success,
            Outcome::Loksyu(Side::Yin),
        ],
    }
}

/// Every face is between 1 and 10.
pub open spec fn faces_on_table(faces: Seq<u64>) -> bool {
    forall|i: int| 0 <= i < faces.len() ==> 1 <= #[trigger] faces[i] <= 10
}

/// How many of `faces` have outcome `o` for element `e`.
pub open spec fn count_outcome(faces: Seq<u64>, e: Element, o: Outcome) -> nat
    decreases faces.len(),
{
    if faces.len() == 0 {
        0
    } else {
        count_outcome(faces.drop_last(), e, o) + if outcome_table(e)[faces.last() - 1] == o {
            1nat
        } else {
            0nat
        }
    }
}

/// The faces of a history made of exactly one group of plain dice.
pub open spec fn single_roll(h: Seq<RollHistory>) -> Option<Seq<u64>> {
    if h.len() == 1 && h[0] is Roll {
        Option::Some(entry_values(h[0]))
    } else {
        Option::None
    }
}

/// A single roll can be read: its faces are on the table and its counts fit
/// a `u32`.
pub open spec fn readable(h: Seq<RollHistory>) -> bool {
    match single_roll(h) {
        Option::Some(f) => faces_on_table(f) && f.len() <= u32::MAX,
        Option::None => true,
    }
}

/// The outcome table of one element.
fn table_row(e: Element) -> (r: Vec<Outcome>)
    ensures
        r@ == outcome_table(e),
{
    let r = match e {
        Element::Fire => vec![
            Outcome::TinJi,
            Outcome::Success,
            Outcome::Loksyu(Side::Yang),
            Outcome::Ill,
            Outcome::Lucky,
            Outcome::TinJi,
            Outcome::Success,
            Outcome::Loksyu(Side::Yin),
            Outcome::Ill,
            Outcome::Lucky,
        ],
        Element::Earth => vec![
            Outcome::Loksyu(Side::Yang),
            Outcome::Ill,
            Outcome::Lucky,
            Outcome::TinJi,
            Outcome::Success,
            Outcome::Loksyu(Side::Yin),
            Outcome::Ill,
            Outcome::Lucky,
            Outcome::TinJi,
            Outcome::Success,
        ],
        Element::Metal => vec![
            Outcome::Lucky,
            Outcome::TinJi,
            Outcome::Success,
            Outcome::Loksyu(Side::Yin),
            Outcome::Ill,
            Outcome::Lucky,
            Outcome::TinJi,
            Outcome::Success,
            Outcome::Loksyu(Side::Yang),
            Outcome::Ill,
        ],
        Element::Water => vec![
            Outcome::Success,
            Outcome::Loksyu(Side::Yin),
            Outcome::Ill,
            Outcome::Lucky,
            Outcome::TinJi,
            Outcome::Success,
            Outcome::Loksyu(Side::Yang),
            Outcome::Ill,
            Outcome::Lucky,
            Outcome::TinJi,
        ],
        Element::Wood => vec![
            Outcome::Ill,
            Outcome::Lucky,
            Outcome::TinJi,
            Outcome::Success,
            Outcome::Loksyu(Side::Yang),
            Outcome::Ill,
            Outcome::Lucky,
            Outcome::TinJi,
            Outcome::Success,
            Outcome::Loksyu(Side::Yin),
        ],
    };
    assert(r@ =~= outcome_table(e));
    r
}

/// The element that `e` generates.
pub open spec fn generates(e: Element) -> Element {
    match e {
        Element::Fire => Element::Earth,
        Element::Earth => Element::Metal,
        Element::Metal => Element::Water,
        Element::Water => Element::Wood,
        Element::Wood => Element::Fire,
    }
}

/// The element that generates `e`.
pub open spec fn generator(e: Element) -> Element {
    match e {
        Element::Fire => Element::Wood,
        Element::Earth => Element::Fire,
        Element::Metal => Element::Earth,
        Element::Water => Element::Metal,
        Element::Wood => Element::Water,
    }
}

/// The element that `e` dominates.
pub open spec fn dominates(e: Element) -> Element {
    match e {
        Element::Fire => Element::Metal,
        Element::Earth => Element::Water,
        Element::Metal => Element::Wood,
        Element::Water => Element::Fire,
        Element::Wood => Element::Earth,
    }
}

/// The element that dominates `e`.
pub open spec fn dominator(e: Element) -> Element {
    match e {
        Element::Fire => Element::Water,
        Element::Earth => Element::Wood,
        Element::Metal => Element::Fire,
        Element::Water => Element::Earth,
        Element::Wood => Element::Metal,
    }
}

/// The elements of the five outcomes, in the order success, lucky, ill,
/// loksyu, tin ji.
pub open spec fn relatives(e: Element) -> Seq<Element> {
    seq![e, generates(e), generator(e), dominates(e), dominator(e)]
}

/// The glyph and name that stand for an element.
pub open spec fn label_text(e: Element) -> Seq<char> {
    match e {
        Element::Fire => "㊋ fire"@,
        Element::Earth => "㊏ earth"@,
        Element::Metal => "㊎ metal"@,
        Element::Water => "㊌ water"@,
        Element::Wood => "㊍ wood"@,
    }
}

/// The element that a lower-case name, English or French, stands for.
pub open spec fn element_named(name: Seq<char>) -> Option<Element> {
    if name == "feu"@ || name == "fire"@ {
        Option::Some(Element::Fire)
    } else if name == "earth"@ || name == "terre"@ {
        Option::Some(Element::Earth)
    } else if name == "metal"@ || name == "métal"@ {
        Option::Some(Element::Metal)
    } else if name == "eau"@ || name == "water"@ {
        Option::Some(Element::Water)
    } else if name == "bois"@ || name == "wood"@ {
        Option::Some(Element::Wood)
    } else {
        Option::None
    }
}

/// `s` in lower case, as `str::to_lowercase` gives it.
pub uninterp spec fn lower_of(s: Seq<char>) -> Seq<char>;

/// Relies on `str::to_lowercase`: the result depends on the characters of
/// `s` alone.
#[verifier::external_body]
fn lowercase(s: &str) -> (r: String)
    ensures
        r@ == lower_of(s@),
{
    s.to_lowercase()
}

/// The label of one element.
fn label(e: Element) -> (r: String)
    ensures
        r@ == label_text(e),
{
    match e {
        Element::Fire => String::from_str("㊋ fire"),
        Element::Earth => String::from_str("㊏ earth"),
        Element::Metal => String::from_str("㊎ metal"),
        Element::Water => String::from_str("㊌ water"),
        Element::Wood => String::from_str("㊍ wood"),
    }
}

/// The labels of the five outcomes of `e`, in the order of `relatives`.
fn labels(e: Element) -> (r: [String; 5])
    ensures
        forall|i: int| 0 <= i < 5 ==> (#[trigger] r@[i])@ == label_text(relatives(e)[i]),
{
    let (a, b, c, d, f) = match e {
        Element::Fire => (Element::Fire, Element::Earth, Element::Wood, Element::Metal, Element::Water),
        Element::Earth => (Element::Earth, Element::Metal, Element::Fire, Element::Water, Element::Wood),
        Element::Metal => (Element::Metal, Element::Water, Element::Earth, Element::Wood, Element::Fire),
        Element::Water => (Element::Water, Element::Wood, Element::Metal, Element::Fire, Element::Earth),
        Element::Wood => (Element::Wood, Element::Fire, Element::Water, Element::Earth, Element::Metal),
    };
    [label(a), label(b), label(c), label(d), label(f)]
}

/// The share of a roll's dice among the five outcomes of an element.
#[derive(Debug)]
pub struct CdeResult {
    /// Dice under the rolling element.
    pub success: u32,
    /// Dice under the element generated by the rolling element.
    pub lucky: u32,
    /// Dice under the element generating the rolling element.
    pub ill: u32,
    /// Dice under the element dominated by the rolling element: yin, yang.
    pub loksyu: (u32, u32),
    /// Dice under the element dominating the rolling element.
    pub tin_ji: u32,
    /// The roll that was read, so the share can be checked by hand.
    pub history: Option<RollHistory>,
    /// The labels of the five outcomes' elements.
    pub elements: [String; 5],
}

/// Two readings are equal when their counts are; the roll and the labels
/// are left out.
impl PartialEq for CdeResult {
    fn eq(&self, other: &Self) -> (r: bool) {
        self.success == other.success && self.lucky == other.lucky && self.ill == other.ill
            && self.loksyu.0 == other.loksyu.0 && self.loksyu.1 == other.loksyu.1 && self.tin_ji
            == other.tin_ji
    }
}

impl vstd::std_specs::cmp::PartialEqSpecImpl for CdeResult {
    open spec fn obeys_eq_spec() -> bool {
        true
    }

    open spec fn eq_spec(&self, other: &Self) -> bool {
        self.success == other.success && self.lucky == other.lucky && self.ill == other.ill
            && self.loksyu == other.loksyu && self.tin_ji == other.tin_ji
    }
}

/// `c` is the reading of `faces` under `e`.
pub open spec fn describes(c: CdeResult, faces: Seq<u64>, e: Element) -> bool {
    &&& c.success == count_outcome(faces, e, Outcome::Success)
    &&& c.lucky == count_outcome(faces, e, Outcome::Lucky)
    &&& c.ill == count_outcome(faces, e, Outcome::Ill)
    &&& c.loksyu.0 == count_outcome(faces, e, Outcome::Loksyu(Side::Yin))
    &&& c.loksyu.1 == count_outcome(faces, e, Outcome::Loksyu(Side::Yang))
    &&& c.tin_ji == count_outcome(faces, e, Outcome::TinJi)
    &&& match c.history {
        Option::Some(RollHistory::Roll(v)) => v@ == faces,
        _ => false,
    }
    &&& forall|i: int| 0 <= i < 5 ==> (#[trigger] c.elements@[i])@ == label_text(relatives(e)[i])
}

impl Element {
    /// The element that a lower-case name stands for: `fire` or `feu`,
    /// `earth` or `terre`, `metal` or `métal`, `water` or `eau`, `wood` or
    /// `bois`.
    pub fn from_lowercase(name: &str) -> (r: Option<Element>)
        ensures
            r == element_named(name@),
    {
        let n = name.to_owned();
        if n == String::from_str("feu") || n == String::from_str("fire") {
            Option::Some(Element::Fire)
        } else if n == String::from_str("earth") || n == String::from_str("terre") {
            Option::Some(Element::Earth)
        } else if n == String::from_str("metal") || n == String::from_str("métal") {
            Option::Some(Element::Metal)
        } else if n == String::from_str("eau") || n == String::from_str("water") {
            Option::Some(Element::Water)
        } else if n == String::from_str("bois") || n == String::from_str("wood") {
            Option::Some(Element::Wood)
        } else {
            Option::None
        }
    }
}

/// A copy of `v`.
fn copy_faces(v: &Vec<u64>) -> (r: Vec<u64>)
    ensures
        r@ == v@,
{
    let mut r: Vec<u64> = Vec::new();
    let mut i: usize = 0;
    while i < v.len()
        invariant
            i <= v.len(),
            r@ == v@.subrange(0, i as int),
        decreases v.len() - i,
    {
        r.push(v[i]);
        i = i + 1;
        assert(r@ =~= v@.subrange(0, i as int));
    }
    assert(v@.subrange(0, v.len() as int) =~= v@);
    r
}

/// Reads the faces of a roll under `e`.
fn tally(faces: &Vec<u64>, e: Element) -> (r: CdeResult)
    requires
        faces_on_table(faces@),
        faces@.len() <= u32::MAX,
    ensures
        describes(r, faces@, e),
{
    let row = table_row(e);
    let mut success: u32 = 0;
    let mut lucky: u32 = 0;
    let mut ill: u32 = 0;
    let mut yin: u32 = 0;
    let mut yang: u32 = 0;
    let mut tin_ji: u32 = 0;
    let mut i: usize = 0;
    while i < faces.len()
        invariant
            i <= faces.len() <= u32::MAX,
            faces_on_table(faces@),
            row@ == outcome_table(e),
            success == count_outcome(faces@.subrange(0, i as int), e, Outcome::Success),
            lucky == count_outcome(faces@.subrange(0, i as int), e, Outcome::Lucky),
            ill == count_outcome(faces@.subrange(0, i as int), e, Outcome::Ill),
            yin == count_outcome(faces@.subrange(0, i as int), e, Outcome::Loksyu(Side::Yin)),
            yang == count_outcome(faces@.subrange(0, i as int), e, Outcome::Loksyu(Side::Yang)),
            tin_ji == count_outcome(faces@.subrange(0, i as int), e, Outcome::TinJi),
            success <= i,
            lucky <= i,
            ill <= i,
            yin <= i,
            yang <= i,
            tin_ji <= i,
        decreases faces.len() - i,
    {
        let face = faces[i];
        assert(1 <= faces@[i as int] <= 10);
        assert(faces@.subrange(0, i as int + 1).drop_last() =~= faces@.subrange(0, i as int));
        match row[(face - 1) as usize] {
            Outcome::Success => success = success + 1,
            Outcome::Lucky => lucky = lucky + 1,
            Outcome::Ill => ill = ill + 1,
            Outcome::Loksyu(Side::Yin) => yin = yin + 1,
            Outcome::Loksyu(Side::Yang) => yang = yang + 1,
            Outcome::TinJi => tin_ji = tin_ji + 1,
        }
        i = i + 1;
    }
    assert(faces@.subrange(0, faces.len() as int) =~= faces@);
    CdeResult {
        success,
        lucky,
        ill,
        loksyu: (yin, yang),
        tin_ji,
        history: Option::Some(RollHistory::Roll(copy_faces(faces))),
        elements: labels(e),
    }
}

/// Reads a roll made of exactly one group of plain dice under element `e`.
pub fn interpret(res: &RollResult, e: Element) -> (r: Result<CdeResult, CdeError>)
    requires
        readable(res@.history),
    ensures
        match single_roll(res@.history) {
            Option::None => r == Err::<CdeResult, CdeError>(CdeError::ShapeMismatch),
            Option::Some(faces) => r is Ok && describes(r->Ok_0, faces, e),
        },
{
    let history = res.get_history();
    if history.len() != 1 {
        return Err(CdeError::ShapeMismatch);
    }
    match &history[0] {
        RollHistory::Roll(faces) => Ok(tally(faces, e)),
        _ => Err(CdeError::ShapeMismatch),
    }
}

/// Reads a roll under the element that `element` names, in any case: the
/// roll must be exactly one group of plain dice, and the name one of the
/// five, in English or in French.
pub fn compute_cde(res: &RollResult, element: &str) -> (r: Result<CdeResult, CdeError>)
    requires
        readable(res@.history),
    ensures
        match single_roll(res@.history) {
            Option::None => r == Err::<CdeResult, CdeError>(CdeError::ShapeMismatch),
            Option::Some(faces) => match element_named(lower_of(element@)) {
                Option::None => r == Err::<CdeResult, CdeError>(CdeError::MalformedInput),
                Option::Some(e) => r is Ok && describes(r->Ok_0, faces, e),
            },
        },
{
    let history = res.get_history();
    if history.len() != 1 || !matches!(history[0], RollHistory::Roll(_)) {
        return Err(CdeError::ShapeMismatch);
    }
    let lowered = lowercase(element);
    match Element::from_lowercase(lowered.as_str()) {
        Option::Some(e) => interpret(res, e),
        Option::None => Err(CdeError::MalformedInput),
    }
}

} // verus!
