//! The model picker: a list of models, then, for a model with several
//! reasoning efforts, a list of efforts.

use crate::json::{json_array, json_bool, json_get, json_str, json_str_at, Json};
use crate::slash_popup::{lemma_succ_mod, next_index, previous_index};
use crate::format::{decimal, u64_to_decimal};
use crate::text::{
    chars_of, clone_opt, opt_chars, opt_str_chars, owned, push_char, push_str, starts_with, str_eq,
};
use crate::wrapping::{lines_of, rust_lines, wrap_words, wrap_words_spec};
use vstd::prelude::*;

verus! {

/// A reasoning effort a model supports.
#[derive(Debug)]
pub struct ReasoningEffortOption {
    pub effort: String,
    pub description: String,
}

/// A model the server offers.
#[derive(Debug)]
pub struct ModelOption {
    pub id: String,
    pub description: String,
    pub is_default: bool,
    pub default_reasoning_effort: Option<String>,
    pub supported_reasoning_efforts: Vec<ReasoningEffortOption>,
}

/// The model and effort the user picked.
#[derive(Debug)]
pub struct ModelSelection {
    pub model: String,
    pub effort: Option<String>,
}

/// Which list the picker shows.
#[derive(Debug, Clone, Copy, PartialEq, Eq)]
pub enum PickerStage {
    Model,
    Reasoning { model_index: usize },
}

/// The picker's state.
#[derive(Debug)]
pub struct ModelPicker {
    options: Vec<ModelOption>,
    selected: usize,
    stage: PickerStage,
    active_model: Option<String>,
    active_effort: Option<String>,
}

// ---------------------------------------------------------------------------
// Searching a list
// ---------------------------------------------------------------------------

/// The first index below `n` where `p` holds.
pub open spec fn first_index(n: nat, p: spec_fn(int) -> bool) -> Option<nat>
    decreases n,
{
    if n == 0 {
        None
    } else {
        match first_index((n - 1) as nat, p) {
            Some(i) => Some(i),
            None => if p(n - 1) {
                Some((n - 1) as nat)
            } else {
                None
            },
        }
    }
}

/// `first_index` is `k` when `p` holds at `k` and nowhere before.
pub proof fn lemma_first_index_found(n: nat, p: spec_fn(int) -> bool, k: nat)
    requires
        k < n,
        p(k as int),
        forall|j: int| 0 <= j < k ==> !(#[trigger] p(j)),
    ensures
        first_index(n, p) == Some(k),
    decreases n,
{
    if n - 1 > k {
        lemma_first_index_found((n - 1) as nat, p, k);
    } else {
        lemma_first_index_none(k, p);
    }
}

/// `first_index` is `None` when `p` holds nowhere below `n`.
pub proof fn lemma_first_index_none(n: nat, p: spec_fn(int) -> bool)
    requires
        forall|j: int| 0 <= j < n ==> !(#[trigger] p(j)),
    ensures
        first_index(n, p) is None,
    decreases n,
{
    if n > 0 {
        lemma_first_index_none((n - 1) as nat, p);
    }
}

/// The option at `i` is the model named `id`.
pub open spec fn has_id(opts: Seq<ModelOption>, id: Seq<char>) -> spec_fn(int) -> bool {
    |i: int| opts[i].id@ == id
}

/// The option at `i` is the server's default model.
pub open spec fn is_default_at(opts: Seq<ModelOption>) -> spec_fn(int) -> bool {
    |i: int| opts[i].is_default
}

/// The effort at `i` is named `effort`.
pub open spec fn has_effort(efforts: Seq<ReasoningEffortOption>, effort: Seq<char>) -> spec_fn(
    int,
) -> bool {
    |i: int| efforts[i].effort@ == effort
}

/// The position of the model named `id`.
fn position_of_id(options: &Vec<ModelOption>, id: &str) -> (r: Option<usize>)
    ensures
        r matches Some(i) ==> first_index(options@.len(), has_id(options@, id@)) == Some(i as nat),
        r is None ==> first_index(options@.len(), has_id(options@, id@)) is None,
{
    let ghost p = has_id(options@, id@);
    let mut i: usize = 0;
    while i < options.len()
        invariant
            p == has_id(options@, id@),
            i <= options@.len(),
            forall|j: int| 0 <= j < i ==> !(#[trigger] p(j)),
        decreases options.len() - i,
    {
        if str_eq(options[i].id.as_str(), id) {
            proof {
                lemma_first_index_found(options@.len(), p, i as nat);
            }
            return Some(i);
        }
        i = i + 1;
    }
    proof {
        lemma_first_index_none(options@.len(), p);
    }
    None
}

/// The position of the server's default model.
fn position_of_default(options: &Vec<ModelOption>) -> (r: Option<usize>)
    ensures
        r matches Some(i) ==> first_index(options@.len(), is_default_at(options@)) == Some(
            i as nat,
        ),
        r is None ==> first_index(options@.len(), is_default_at(options@)) is None,
{
    let ghost p = is_default_at(options@);
    let mut i: usize = 0;
    while i < options.len()
        invariant
            p == is_default_at(options@),
            i <= options@.len(),
            forall|j: int| 0 <= j < i ==> !(#[trigger] p(j)),
        decreases options.len() - i,
    {
        if options[i].is_default {
            proof {
                lemma_first_index_found(options@.len(), p, i as nat);
            }
            return Some(i);
        }
        i = i + 1;
    }
    proof {
        lemma_first_index_none(options@.len(), p);
    }
    None
}

/// The position of the effort named `effort`.
fn position_of_effort(efforts: &Vec<ReasoningEffortOption>, effort: &str) -> (r: Option<usize>)
    ensures
        r matches Some(i) ==> first_index(efforts@.len(), has_effort(efforts@, effort@)) == Some(
            i as nat,
        ),
        r is None ==> first_index(efforts@.len(), has_effort(efforts@, effort@)) is None,
{
    let ghost p = has_effort(efforts@, effort@);
    let mut i: usize = 0;
    while i < efforts.len()
        invariant
            p == has_effort(efforts@, effort@),
            i <= efforts@.len(),
            forall|j: int| 0 <= j < i ==> !(#[trigger] p(j)),
        decreases efforts.len() - i,
    {
        if str_eq(efforts[i].effort.as_str(), effort) {
            proof {
                lemma_first_index_found(efforts@.len(), p, i as nat);
            }
            return Some(i);
        }
        i = i + 1;
    }
    proof {
        lemma_first_index_none(efforts@.len(), p);
    }
    None
}

// ---------------------------------------------------------------------------
// The picker
// ---------------------------------------------------------------------------

/// Whether `opt` is the model in use: the active one, or the server's
/// default when none is active.
pub open spec fn is_current_spec(active_model: Option<Seq<char>>, opt: ModelOption) -> bool {
    active_model == Some(opt.id@) || (active_model is None && opt.is_default)
}

/// The effort the reasoning list starts on: the active effort (or the
/// model's default) for the model in use, the model's default otherwise.
pub open spec fn target_effort(
    active_model: Option<Seq<char>>,
    active_effort: Option<Seq<char>>,
    opt: ModelOption,
) -> Option<Seq<char>> {
    if is_current_spec(active_model, opt) && active_effort is Some {
        active_effort
    } else {
        opt_chars(opt.default_reasoning_effort)
    }
}

/// The row the reasoning list of model `mi` starts on.
pub open spec fn initial_reasoning_spec(
    opts: Seq<ModelOption>,
    mi: int,
    active_model: Option<Seq<char>>,
    active_effort: Option<Seq<char>>,
) -> nat {
    if 0 <= mi < opts.len() {
        let efforts = opts[mi].supported_reasoning_efforts@;
        match target_effort(active_model, active_effort, opts[mi]) {
            Some(t) => match first_index(efforts.len(), has_effort(efforts, t)) {
                Some(k) => k,
                None => 0,
            },
            None => 0,
        }
    } else {
        0
    }
}

/// The row the model list starts on: the active model, else the default
/// model, else the first.
pub open spec fn initial_model_spec(opts: Seq<ModelOption>, active_model: Option<Seq<char>>) -> nat {
    let by_id = match active_model {
        Some(m) => first_index(opts.len(), has_id(opts, m)),
        None => None,
    };
    match by_id {
        Some(i) => i,
        None => match first_index(opts.len(), is_default_at(opts)) {
            Some(i) => i,
            None => 0,
        },
    }
}

/// The effort picked for a model offering at most one: that one, else the
/// model's default.
pub open spec fn sole_effort(opt: ModelOption) -> Option<Seq<char>> {
    if opt.supported_reasoning_efforts@.len() >= 1 {
        Some(opt.supported_reasoning_efforts@[0].effort@)
    } else {
        opt_chars(opt.default_reasoning_effort)
    }
}

/// The effort picked at row `row` of a model's reasoning list: that
/// effort, else the model's default.
pub open spec fn effort_at(opt: ModelOption, row: int) -> Option<Seq<char>> {
    if 0 <= row < opt.supported_reasoning_efforts@.len() {
        Some(opt.supported_reasoning_efforts@[row].effort@)
    } else {
        opt_chars(opt.default_reasoning_effort)
    }
}

/// Opening the effort list of a model that is not the one in use starts
/// on its default effort: at the first row holding that effort.
pub proof fn lemma_effort_list_opens_on_default(
    opts: Seq<ModelOption>,
    sel: nat,
    active_model: Option<Seq<char>>,
    active_effort: Option<Seq<char>>,
    k: nat,
)
    requires
        sel < opts.len(),
        sel <= usize::MAX,
        opts[sel as int].supported_reasoning_efforts@.len() > 1,
        !is_current_spec(active_model, opts[sel as int]),
        opts[sel as int].default_reasoning_effort matches Some(d) && k
            < opts[sel as int].supported_reasoning_efforts@.len()
            && opts[sel as int].supported_reasoning_efforts@[k as int].effort@ == d@
            && forall|j: int|
            0 <= j < k ==> (#[trigger] opts[sel as int].supported_reasoning_efforts@[j]).effort@
                != d@,
    ensures
        accept_outcome(opts, PickerStage::Model, sel, active_model, active_effort) == (
            None::<(Seq<char>, Option<Seq<char>>)>,
            PickerStage::Reasoning { model_index: sel as usize },
            k,
        ),
{
    let efforts = opts[sel as int].supported_reasoning_efforts@;
    let d = opts[sel as int].default_reasoning_effort.unwrap();
    assert forall|j: int| 0 <= j < k implies !(#[trigger] has_effort(efforts, d@)(j)) by {
        assert(efforts[j].effort@ != d@);
    }
    lemma_first_index_found(efforts.len(), has_effort(efforts, d@), k);
}

/// Opening the effort list of the model in use starts on the active
/// effort: at the first row holding it.
pub proof fn lemma_effort_list_opens_on_active(
    opts: Seq<ModelOption>,
    sel: nat,
    active_model: Option<Seq<char>>,
    e: Seq<char>,
    k: nat,
)
    requires
        sel < opts.len(),
        sel <= usize::MAX,
        opts[sel as int].supported_reasoning_efforts@.len() > 1,
        is_current_spec(active_model, opts[sel as int]),
        k < opts[sel as int].supported_reasoning_efforts@.len(),
        opts[sel as int].supported_reasoning_efforts@[k as int].effort@ == e,
        forall|j: int|
            0 <= j < k ==> (#[trigger] opts[sel as int].supported_reasoning_efforts@[j]).effort@ != e,
    ensures
        accept_outcome(opts, PickerStage::Model, sel, active_model, Some(e)) == (
            None::<(Seq<char>, Option<Seq<char>>)>,
            PickerStage::Reasoning { model_index: sel as usize },
            k,
        ),
{
    let efforts = opts[sel as int].supported_reasoning_efforts@;
    assert forall|j: int| 0 <= j < k implies !(#[trigger] has_effort(efforts, e)(j)) by {
        assert(efforts[j].effort@ != e);
    }
    lemma_first_index_found(efforts.len(), has_effort(efforts, e), k);
}

/// What Esc does: from the effort list, back to the model list on the
/// model it came from; from the model list, a request to close.
pub open spec fn back_outcome(stage: PickerStage, sel: nat) -> (bool, PickerStage, nat) {
    match stage {
        PickerStage::Model => (true, stage, sel),
        PickerStage::Reasoning { model_index } => (false, PickerStage::Model, model_index as nat),
    }
}

/// Opening a model's effort list and pressing Esc returns to the model
/// list on that model.
pub proof fn lemma_back_after_open(
    opts: Seq<ModelOption>,
    sel: nat,
    active_model: Option<Seq<char>>,
    active_effort: Option<Seq<char>>,
)
    requires
        sel < opts.len(),
        sel <= usize::MAX,
        opts[sel as int].supported_reasoning_efforts@.len() > 1,
    ensures
        ({
            let opened = accept_outcome(opts, PickerStage::Model, sel, active_model, active_effort);
            &&& opened.0 is None
            &&& back_outcome(opened.1, opened.2) == (false, PickerStage::Model, sel)
        }),
{
}

impl ModelSelection {
    /// The picked model and effort as text.
    pub open spec fn view_spec(&self) -> (Seq<char>, Option<Seq<char>>) {
        (self.model@, opt_chars(self.effort))
    }
}

/// The text of an optional selection.
pub open spec fn selection_view(r: Option<ModelSelection>) -> Option<(Seq<char>, Option<Seq<char>>)> {
    match r {
        Some(s) => Some(s.view_spec()),
        None => None,
    }
}

/// What confirming row `sel` does: the selection picked, if any, and the
/// list and row shown afterwards.  On the model list, a model with at most
/// one effort is picked at once and one with several opens its effort list
/// on its initial row; on an effort list, the model and the effort at the
/// row are picked.  A row past the models picks nothing.
pub open spec fn accept_outcome(
    opts: Seq<ModelOption>,
    stage: PickerStage,
    sel: nat,
    active_model: Option<Seq<char>>,
    active_effort: Option<Seq<char>>,
) -> (Option<(Seq<char>, Option<Seq<char>>)>, PickerStage, nat) {
    match stage {
        PickerStage::Model => if sel >= opts.len() {
            (None, stage, sel)
        } else if opts[sel as int].supported_reasoning_efforts@.len() <= 1 {
            (Some((opts[sel as int].id@, sole_effort(opts[sel as int]))), stage, sel)
        } else {
            (
                None,
                PickerStage::Reasoning { model_index: sel as usize },
                initial_reasoning_spec(opts, sel as int, active_model, active_effort),
            )
        },
        PickerStage::Reasoning { model_index } => if model_index < opts.len() {
            (
                Some(
                    (
                        opts[model_index as int].id@,
                        effort_at(opts[model_index as int], sel as int),
                    ),
                ),
                stage,
                sel,
            )
        } else {
            (None, stage, sel)
        },
    }
}

impl ModelPicker {
    /// The models offered.
    pub closed spec fn options_spec(&self) -> Seq<ModelOption> {
        self.options@
    }

    /// The selected row of the list shown.
    pub closed spec fn selected_spec(&self) -> nat {
        self.selected as nat
    }

    /// Which list is shown.
    pub closed spec fn stage_spec(&self) -> PickerStage {
        self.stage
    }

    /// The model in use, if known.
    pub closed spec fn active_model_spec(&self) -> Option<Seq<char>> {
        opt_chars(self.active_model)
    }

    /// The effort in use, if known.
    pub closed spec fn active_effort_spec(&self) -> Option<Seq<char>> {
        opt_chars(self.active_effort)
    }

    /// How many rows the shown list has.
    pub open spec fn visible_len_spec(&self) -> nat {
        match self.stage_spec() {
            PickerStage::Model => self.options_spec().len(),
            PickerStage::Reasoning { model_index } => if model_index < self.options_spec().len() {
                self.options_spec()[model_index as int].supported_reasoning_efforts@.len()
            } else {
                0
            },
        }
    }

    /// A picker over `options` showing the model list, starting on the
    /// active model, else the default model, else the first.
    pub fn new(options: Vec<ModelOption>, active_model: Option<&str>, active_effort: Option<&str>) -> (p:
        ModelPicker)
        ensures
            p.options_spec() == options@,
            p.stage_spec() == PickerStage::Model,
            p.active_model_spec() == opt_str_chars(active_model),
            p.active_effort_spec() == opt_str_chars(active_effort),
            p.selected_spec() == initial_model_spec(options@, opt_str_chars(active_model)),
    {
        let by_id = match active_model {
            Some(model) => position_of_id(&options, model),
            None => None,
        };
        let selected = match by_id {
            Some(i) => i,
            None => match position_of_default(&options) {
                Some(i) => i,
                None => 0,
            },
        };
        let active_model = match active_model {
            Some(m) => Some(owned(m)),
            None => None,
        };
        let active_effort = match active_effort {
            Some(e) => Some(owned(e)),
            None => None,
        };
        ModelPicker { options, selected, stage: PickerStage::Model, active_model, active_effort }
    }

    /// The selected row of the list shown.
    pub fn selected_row(&self) -> (r: usize)
        ensures
            r == self.selected_spec(),
    {
        self.selected
    }

    /// Which list is shown.
    pub fn stage(&self) -> (r: PickerStage)
        ensures
            r == self.stage_spec(),
    {
        self.stage
    }

    /// The models offered.
    pub fn options(&self) -> (r: &Vec<ModelOption>)
        ensures
            r@ == self.options_spec(),
    {
        &self.options
    }

    /// Whether no model is offered.
    pub fn is_empty(&self) -> (b: bool)
        ensures
            b == (self.options_spec().len() == 0),
    {
        self.options.len() == 0
    }

    /// How many rows the shown list has.
    pub fn visible_len(&self) -> (n: usize)
        ensures
            n == self.visible_len_spec(),
    {
        match self.stage {
            PickerStage::Model => self.options.len(),
            PickerStage::Reasoning { model_index } => if model_index < self.options.len() {
                self.options[model_index].supported_reasoning_efforts.len()
            } else {
                0
            },
        }
    }

    /// Moves the selection up, from the first row to the last.
    pub fn select_previous(&mut self)
        ensures
            final(self).selected_spec() == previous_index(
                old(self).selected_spec(),
                old(self).visible_len_spec(),
            ),
            final(self).options_spec() == old(self).options_spec(),
            final(self).stage_spec() == old(self).stage_spec(),
            final(self).active_model_spec() == old(self).active_model_spec(),
            final(self).active_effort_spec() == old(self).active_effort_spec(),
    {
        let len = self.visible_len();
        if len == 0 {
            return;
        }
        if self.selected == 0 {
            self.selected = len - 1;
        } else {
            self.selected = self.selected - 1;
        }
    }

    /// Moves the selection down, from the last row to the first.
    pub fn select_next(&mut self)
        ensures
            final(self).selected_spec() == next_index(
                old(self).selected_spec(),
                old(self).visible_len_spec(),
            ),
            final(self).options_spec() == old(self).options_spec(),
            final(self).stage_spec() == old(self).stage_spec(),
            final(self).active_model_spec() == old(self).active_model_spec(),
            final(self).active_effort_spec() == old(self).active_effort_spec(),
    {
        let len = self.visible_len();
        if len == 0 {
            return;
        }
        if self.selected < len {
            self.selected = (self.selected + 1) % len;
        } else {
            self.selected = ((self.selected % len) + 1) % len;
            proof {
                lemma_succ_mod(old(self).selected as nat, len as nat);
            }
        }
    }

    /// Whether `opt` is the model in use.
    fn is_current_model(&self, option: &ModelOption) -> (b: bool)
        ensures
            b == is_current_spec(self.active_model_spec(), *option),
    {
        match &self.active_model {
            Some(m) => str_eq(m.as_str(), option.id.as_str()),
            None => option.is_default,
        }
    }

    /// The row the reasoning list of model `model_index` starts on.
    fn initial_reasoning_index(&self, model_index: usize) -> (r: usize)
        ensures
            r == initial_reasoning_spec(
                self.options_spec(),
                model_index as int,
                self.active_model_spec(),
                self.active_effort_spec(),
            ),
    {
        if model_index >= self.options.len() {
            return 0;
        }
        let option = &self.options[model_index];
        let target: Option<&String> = if self.is_current_model(option) && self.active_effort.is_some() {
            self.active_effort.as_ref()
        } else {
            option.default_reasoning_effort.as_ref()
        };
        match target {
            Some(t) => match position_of_effort(&option.supported_reasoning_efforts, t.as_str()) {
                Some(k) => k,
                None => 0,
            },
            None => 0,
        }
    }

    /// Confirms the selected row.  On the model list, a model with at most
    /// one effort is picked at once and one with several opens its effort
    /// list; on an effort list, the model and that effort are picked.
    pub fn accept(&mut self) -> (r: Option<ModelSelection>)
        ensures
            final(self).options_spec() == old(self).options_spec(),
            final(self).active_model_spec() == old(self).active_model_spec(),
            final(self).active_effort_spec() == old(self).active_effort_spec(),
            accept_outcome(
                old(self).options_spec(),
                old(self).stage_spec(),
                old(self).selected_spec(),
                old(self).active_model_spec(),
                old(self).active_effort_spec(),
            ) == (selection_view(r), final(self).stage_spec(), final(self).selected_spec()),
    {
        match self.stage {
            PickerStage::Model => {
                let model_index = self.selected;
                if model_index >= self.options.len() {
                    return None;
                }
                let option = &self.options[model_index];
                if option.supported_reasoning_efforts.len() <= 1 {
                    let effort = if option.supported_reasoning_efforts.len() == 1 {
                        Some(option.supported_reasoning_efforts[0].effort.clone())
                    } else {
                        clone_opt(&option.default_reasoning_effort)
                    };
                    return Some(ModelSelection { model: option.id.clone(), effort });
                }
                let initial = self.initial_reasoning_index(model_index);
                self.stage = PickerStage::Reasoning { model_index };
                self.selected = initial;
                None
            },
            PickerStage::Reasoning { model_index } => {
                if model_index >= self.options.len() {
                    return None;
                }
                let option = &self.options[model_index];
                let effort = if self.selected < option.supported_reasoning_efforts.len() {
                    Some(option.supported_reasoning_efforts[self.selected].effort.clone())
                } else {
                    clone_opt(&option.default_reasoning_effort)
                };
                Some(ModelSelection { model: option.id.clone(), effort })
            },
        }
    }

    /// Picks row `number` (counted from 1) of the shown list and confirms
    /// it; nothing happens for a number outside the list.
    pub fn select_number(&mut self, number: usize) -> (r: Option<ModelSelection>)
        ensures
            (number == 0 || number > old(self).visible_len_spec()) ==> (r is None && *final(self)
                == *old(self)),
            (1 <= number <= old(self).visible_len_spec()) ==> accept_outcome(
                old(self).options_spec(),
                old(self).stage_spec(),
                (number - 1) as nat,
                old(self).active_model_spec(),
                old(self).active_effort_spec(),
            ) == (selection_view(r), final(self).stage_spec(), final(self).selected_spec()),
            final(self).options_spec() == old(self).options_spec(),
            final(self).active_model_spec() == old(self).active_model_spec(),
            final(self).active_effort_spec() == old(self).active_effort_spec(),
    {
        if number == 0 || number > self.visible_len() {
            return None;
        }
        self.selected = number - 1;
        self.accept()
    }

    /// Esc: leaves the effort list for the model list (on the model it
    /// came from), or asks to close the picker from the model list.
    pub fn cancel_or_back(&mut self) -> (close: bool)
        ensures
            final(self).options_spec() == old(self).options_spec(),
            final(self).active_model_spec() == old(self).active_model_spec(),
            final(self).active_effort_spec() == old(self).active_effort_spec(),
            back_outcome(old(self).stage_spec(), old(self).selected_spec()) == (
                close,
                final(self).stage_spec(),
                final(self).selected_spec(),
            ),
    {
        match self.stage {
            PickerStage::Model => true,
            PickerStage::Reasoning { model_index } => {
                self.stage = PickerStage::Model;
                self.selected = model_index;
                false
            },
        }
    }

    /// Rows of the heading above the list.
    pub fn header_height(&self) -> (h: u16)
        ensures
            h == (if self.stage_spec() == PickerStage::Model {
                3u16
            } else {
                2u16
            }),
    {
        match self.stage {
            PickerStage::Model => 3,
            PickerStage::Reasoning { .. } => 2,
        }
    }
}

// ---------------------------------------------------------------------------
// Reading the model list the server sends
// ---------------------------------------------------------------------------

/// An optional text, or the empty text.
pub open spec fn str_or_empty(o: Option<Seq<char>>) -> Seq<char> {
    match o {
        Some(s) => s,
        None => Seq::empty(),
    }
}

/// The name and description of an effort.
pub open spec fn effort_view(e: ReasoningEffortOption) -> (Seq<char>, Seq<char>) {
    (e.effort@, e.description@)
}

/// The names and descriptions of a list of efforts.
pub open spec fn efforts_view(s: Seq<ReasoningEffortOption>) -> Seq<(Seq<char>, Seq<char>)> {
    s.map_values(|e: ReasoningEffortOption| effort_view(e))
}

/// The effort an item of `supportedReasoningEfforts` describes: its
/// `reasoningEffort` member (else its `effort` member), which must be a
/// string, and its `description` (empty when missing).
pub open spec fn effort_item_spec(v: Json) -> Option<(Seq<char>, Seq<char>)> {
    let named = match json_get(v, "reasoningEffort"@) {
        Some(x) => Some(x),
        None => json_get(v, "effort"@),
    };
    match named {
        Some(x) => match json_str(x) {
            Some(e) => Some((e, str_or_empty(json_str_at(v, "description"@)))),
            None => None,
        },
        None => None,
    }
}

/// `effort_item_spec` as a function value.
pub open spec fn effort_item_fn() -> spec_fn(Json) -> Option<(Seq<char>, Seq<char>)> {
    |v: Json| effort_item_spec(v)
}

/// The efforts listed under `supportedReasoningEfforts`.
pub open spec fn efforts_of(v: Json) -> Seq<(Seq<char>, Seq<char>)> {
    match json_get(v, "supportedReasoningEfforts"@) {
        Some(list) => match json_array(list) {
            Some(items) => items.filter_map(effort_item_fn()),
            None => Seq::empty(),
        },
        None => Seq::empty(),
    }
}

/// A model option as plain values: id, description, whether it is the
/// default, its default effort, and its efforts.
pub open spec fn model_view(m: ModelOption) -> (
    Seq<char>,
    Seq<char>,
    bool,
    Option<Seq<char>>,
    Seq<(Seq<char>, Seq<char>)>,
) {
    (
        m.id@,
        m.description@,
        m.is_default,
        opt_chars(m.default_reasoning_effort),
        efforts_view(m.supported_reasoning_efforts@),
    )
}

/// The option a model entry describes; `None` for a hidden entry and one
/// whose `model` (else `id`) member is not a string.
pub open spec fn model_item_spec(v: Json) -> Option<
    (Seq<char>, Seq<char>, bool, Option<Seq<char>>, Seq<(Seq<char>, Seq<char>)>),
> {
    let hidden = match json_get(v, "hidden"@) {
        Some(h) => json_bool(h) == Some(true),
        None => false,
    };
    let named = match json_get(v, "model"@) {
        Some(x) => Some(x),
        None => json_get(v, "id"@),
    };
    if hidden {
        None
    } else {
        match named {
            Some(x) => match json_str(x) {
                Some(id) => Some(
                    (
                        id,
                        str_or_empty(json_str_at(v, "description"@)),
                        match json_get(v, "isDefault"@) {
                            Some(d) => json_bool(d) == Some(true),
                            None => false,
                        },
                        json_str_at(v, "defaultReasoningEffort"@),
                        efforts_of(v),
                    ),
                ),
                None => None,
            },
            None => None,
        }
    }
}

/// `model_item_spec` as a function value.
pub open spec fn model_item_fn() -> spec_fn(Json) -> Option<
    (Seq<char>, Seq<char>, bool, Option<Seq<char>>, Seq<(Seq<char>, Seq<char>)>),
> {
    |v: Json| model_item_spec(v)
}

/// The options of a `model/list` result: its `data` entries that describe
/// a visible model, in order.
pub open spec fn model_options_spec(v: Json) -> Seq<
    (Seq<char>, Seq<char>, bool, Option<Seq<char>>, Seq<(Seq<char>, Seq<char>)>),
> {
    match json_get(v, "data"@) {
        Some(list) => match json_array(list) {
            Some(items) => items.filter_map(model_item_fn()),
            None => Seq::empty(),
        },
        None => Seq::empty(),
    }
}

/// The views of a list of options.
pub open spec fn models_view(s: Seq<ModelOption>) -> Seq<
    (Seq<char>, Seq<char>, bool, Option<Seq<char>>, Seq<(Seq<char>, Seq<char>)>),
> {
    s.map_values(|m: ModelOption| model_view(m))
}

/// A text member, or the empty text.
fn str_at_or_empty(value: &Json, key: &str) -> (r: String)
    ensures
        r@ == str_or_empty(json_str_at(*value, key@)),
{
    match value.str_at(key) {
        Some(s) => s,
        None => String::new(),
    }
}

/// The member `first`, else the member `second`.
fn get_either<'a>(value: &'a Json, first: &str, second: &str) -> (r: Option<&'a Json>)
    ensures
        match json_get(*value, first@) {
            Some(x) => r == Some(&x),
            None => match json_get(*value, second@) {
                Some(y) => r == Some(&y),
                None => r is None,
            },
        },
{
    match value.get(first) {
        Some(x) => Some(x),
        None => value.get(second),
    }
}

/// Whether a boolean member is present and true.
fn flag(value: &Json, key: &str) -> (b: bool)
    ensures
        b == match json_get(*value, key@) {
            Some(h) => json_bool(h) == Some(true),
            None => false,
        },
{
    match value.get(key) {
        Some(h) => match h.as_bool() {
            Some(true) => true,
            _ => false,
        },
        None => false,
    }
}

/// Reads one item of `supportedReasoningEfforts`.
pub fn parse_reasoning_effort(value: &Json) -> (r: Option<ReasoningEffortOption>)
    ensures
        match r {
            Some(e) => effort_item_spec(*value) == Some(effort_view(e)),
            None => effort_item_spec(*value) is None,
        },
{
    let named = get_either(value, "reasoningEffort", "effort");
    match named {
        Some(x) => match x.as_str() {
            Some(e) => Some(
                ReasoningEffortOption {
                    effort: owned(e),
                    description: str_at_or_empty(value, "description"),
                },
            ),
            None => None,
        },
        None => None,
    }
}

/// Reads the efforts of a model entry.
fn parse_efforts(value: &Json) -> (r: Vec<ReasoningEffortOption>)
    ensures
        efforts_view(r@) == efforts_of(*value),
{
    let mut out: Vec<ReasoningEffortOption> = Vec::new();
    let list = match value.get("supportedReasoningEfforts") {
        Some(list) => list,
        None => {
            assert(efforts_view(out@) =~= Seq::empty());
            return out;
        },
    };
    let items = match list.as_array() {
        Some(items) => items,
        None => {
            assert(efforts_view(out@) =~= Seq::empty());
            return out;
        },
    };
    let ghost f = effort_item_fn();
    let mut i: usize = 0;
    assert(efforts_view(out@) =~= items@.take(0).filter_map(f));
    while i < items.len()
        invariant
            f == effort_item_fn(),
            i <= items@.len(),
            efforts_view(out@) == items@.take(i as int).filter_map(f),
        decreases items.len() - i,
    {
        proof {
            items@.lemma_filter_map_take_succ(f, i as int);
        }
        let parsed = parse_reasoning_effort(&items[i]);
        match parsed {
            Some(e) => {
                let ghost before = out@;
                out.push(e);
                assert(efforts_view(out@) =~= efforts_view(before) + seq![effort_view(e)]);
            },
            None => {},
        }
        i = i + 1;
    }
    assert(items@.take(i as int) =~= items@);
    out
}

/// Reads one model entry; `None` for a hidden entry or one without a
/// string `model` (else `id`) member.
pub fn parse_model_option(value: &Json) -> (r: Option<ModelOption>)
    ensures
        match r {
            Some(m) => model_item_spec(*value) == Some(model_view(m)),
            None => model_item_spec(*value) is None,
        },
{
    if flag(value, "hidden") {
        return None;
    }
    let id = match get_either(value, "model", "id") {
        Some(x) => match x.as_str() {
            Some(id) => id,
            None => return None,
        },
        None => return None,
    };
    Some(
        ModelOption {
            id: owned(id),
            description: str_at_or_empty(value, "description"),
            is_default: flag(value, "isDefault"),
            default_reasoning_effort: value.str_at("defaultReasoningEffort"),
            supported_reasoning_efforts: parse_efforts(value),
        },
    )
}

/// Reads the options of a `model/list` result.
pub fn parse_model_options(value: &Json) -> (r: Vec<ModelOption>)
    ensures
        models_view(r@) == model_options_spec(*value),
{
    let mut out: Vec<ModelOption> = Vec::new();
    let list = match value.get("data") {
        Some(list) => list,
        None => {
            assert(models_view(out@) =~= Seq::empty());
            return out;
        },
    };
    let items = match list.as_array() {
        Some(items) => items,
        None => {
            assert(models_view(out@) =~= Seq::empty());
            return out;
        },
    };
    let ghost f = model_item_fn();
    let mut i: usize = 0;
    assert(models_view(out@) =~= items@.take(0).filter_map(f));
    while i < items.len()
        invariant
            f == model_item_fn(),
            i <= items@.len(),
            models_view(out@) == items@.take(i as int).filter_map(f),
        decreases items.len() - i,
    {
        proof {
            items@.lemma_filter_map_take_succ(f, i as int);
        }
        let parsed = parse_model_option(&items[i]);
        match parsed {
            Some(m) => {
                let ghost before = out@;
                out.push(m);
                assert(models_view(out@) =~= models_view(before) + seq![model_view(m)]);
            },
            None => {},
        }
        i = i + 1;
    }
    assert(items@.take(i as int) =~= items@);
    out
}

// ---------------------------------------------------------------------------
// What the rows show
// ---------------------------------------------------------------------------

/// The label shown for an effort name.
pub open spec fn effort_label_spec(effort: Seq<char>) -> Seq<char> {
    if effort == "none"@ {
        "None"@
    } else if effort == "minimal"@ {
        "Minimal"@
    } else if effort == "low"@ {
        "Low"@
    } else if effort == "medium"@ {
        "Medium"@
    } else if effort == "high"@ {
        "High"@
    } else if effort == "xhigh"@ {
        "Extra high"@
    } else {
        "Custom"@
    }
}

/// The label shown for an effort name.
pub fn reasoning_effort_label(effort: &str) -> (r: &'static str)
    ensures
        r@ == effort_label_spec(effort@),
{
    if str_eq(effort, "none") {
        "None"
    } else if str_eq(effort, "minimal") {
        "Minimal"
    } else if str_eq(effort, "low") {
        "Low"
    } else if str_eq(effort, "medium") {
        "Medium"
    } else if str_eq(effort, "high") {
        "High"
    } else if str_eq(effort, "xhigh") {
        "Extra high"
    } else {
        "Custom"
    }
}

/// Whether one of `efforts` is named `name`.
pub open spec fn offers_effort(efforts: Seq<ReasoningEffortOption>, name: Seq<char>) -> bool {
    exists|i: int| 0 <= i < efforts.len() && #[trigger] efforts[i].effort@ == name
}

/// The effort whose selection shows the rate-limit warning: for the
/// `gpt-5.1-codex` and `gpt-5.2` families, `xhigh` if offered, else
/// `high` if offered.
pub open spec fn warning_effort_spec(opt: ModelOption) -> Option<Seq<char>> {
    if !("gpt-5.1-codex"@.is_prefix_of(opt.id@) || "gpt-5.2"@.is_prefix_of(opt.id@)) {
        None
    } else if offers_effort(opt.supported_reasoning_efforts@, "xhigh"@) {
        Some("xhigh"@)
    } else if offers_effort(opt.supported_reasoning_efforts@, "high"@) {
        Some("high"@)
    } else {
        None
    }
}

/// Whether one of `efforts` is named `name`.
fn offers(efforts: &Vec<ReasoningEffortOption>, name: &str) -> (b: bool)
    ensures
        b == offers_effort(efforts@, name@),
{
    let mut i: usize = 0;
    while i < efforts.len()
        invariant
            i <= efforts@.len(),
            forall|j: int| 0 <= j < i ==> #[trigger] efforts@[j].effort@ != name@,
        decreases efforts.len() - i,
    {
        if str_eq(efforts[i].effort.as_str(), name) {
            return true;
        }
        i = i + 1;
    }
    false
}

/// The effort whose selection shows the rate-limit warning.
pub fn warning_effort(option: &ModelOption) -> (r: Option<&'static str>)
    ensures
        opt_str_chars(r) == warning_effort_spec(*option),
{
    if !(starts_with(option.id.as_str(), "gpt-5.1-codex") || starts_with(
        option.id.as_str(),
        "gpt-5.1-codex-max",
    ) || starts_with(option.id.as_str(), "gpt-5.2")) {
        proof {
            reveal_strlit("gpt-5.1-codex");
            reveal_strlit("gpt-5.1-codex-max");
        }
        return None;
    }
    proof {
        reveal_strlit("gpt-5.1-codex");
        reveal_strlit("gpt-5.1-codex-max");
        if "gpt-5.1-codex-max"@.is_prefix_of(option.id@) {
            assert(option.id@.subrange(0, 13) =~= "gpt-5.1-codex-max"@.subrange(0, 13));
        }
    }
    if offers(&option.supported_reasoning_efforts, "xhigh") {
        Some("xhigh")
    } else if offers(&option.supported_reasoning_efforts, "high") {
        Some("high")
    } else {
        None
    }
}

/// The longest of `labels`, in characters.
pub open spec fn max_len(labels: Seq<Seq<char>>) -> nat
    decreases labels.len(),
{
    if labels.len() == 0 {
        0
    } else {
        let rest = max_len(labels.drop_last());
        if labels.last().len() > rest {
            labels.last().len()
        } else {
            rest
        }
    }
}

/// The width of the label column: the longest label, kept within 12..=32.
pub open spec fn name_width_spec(labels: Seq<Seq<char>>) -> nat {
    let m = max_len(labels);
    if m < 12 {
        12
    } else if m > 32 {
        32
    } else {
        m
    }
}

/// The width of the label column for `labels`.
pub fn name_width(labels: &Vec<String>) -> (w: usize)
    ensures
        w == name_width_spec(crate::wrapping::strings_view(labels@)),
        12 <= w <= 32,
{
    let ghost ls = crate::wrapping::strings_view(labels@);
    let mut m: usize = 0;
    let mut i: usize = 0;
    assert(ls.take(0) =~= Seq::<Seq<char>>::empty());
    while i < labels.len()
        invariant
            ls == crate::wrapping::strings_view(labels@),
            i <= labels@.len(),
            m == max_len(ls.take(i as int)),
        decreases labels.len() - i,
    {
        assert(ls.take(i + 1).drop_last() =~= ls.take(i as int));
        assert(ls.take(i + 1).last() == labels@[i as int]@);
        let n = labels[i].as_str().unicode_len();
        if n > m {
            m = n;
        }
        i = i + 1;
    }
    assert(ls.take(i as int) =~= ls);
    if m < 12 {
        12
    } else if m > 32 {
        32
    } else {
        m
    }
}

/// `value` fitted to `width` characters: cut to `width - 3` characters and
/// `...` when longer, padded with spaces when shorter.
pub open spec fn pad_or_truncate_spec(value: Seq<char>, width: nat) -> Seq<char> {
    if value.len() > width {
        let keep: int = if width >= 3 {
            width - 3
        } else {
            0
        };
        value.take(keep) + "..."@
    } else {
        value + Seq::new((width - value.len()) as nat, |i: int| ' ')
    }
}

/// Fits `value` to `width` characters.
pub fn pad_or_truncate(value: &str, width: usize) -> (r: String)
    ensures
        r@ == pad_or_truncate_spec(value@, width as nat),
{
    let v = chars_of(value);
    if v.len() > width {
        let keep = if width >= 3 {
            width - 3
        } else {
            0
        };
        let mut r = crate::text::string_from_range(&v, 0, keep);
        push_str(&mut r, "...");
        assert(v@.subrange(0, keep as int) =~= value@.take(keep as int));
        return r;
    }
    let mut r = owned(value);
    let mut n = v.len();
    while n < width
        invariant
            v@ == value@,
            v@.len() <= n <= width,
            r@ == value@ + Seq::new((n - v@.len()) as nat, |i: int| ' '),
        decreases width - n,
    {
        let ghost before = r@;
        push_char(&mut r, ' ');
        assert(r@ =~= value@ + Seq::new((n + 1 - v@.len()) as nat, |i: int| ' '));
        n = n + 1;
    }
    r
}

/// The width left for descriptions beside a label column of `name_width`.
pub open spec fn description_width_spec(content_width: nat, name_width: nat) -> nat {
    let left: int = content_width - (name_width + 5);
    if left < 16 {
        16
    } else {
        left as nat
    }
}

/// The text under a row's label: its description, with the warning shown
/// for the selected row on a line after it.
pub open spec fn descriptions_spec(description: Seq<char>, selected: Option<Seq<char>>) -> Seq<
    char,
> {
    match selected {
        Some(w) => if description.len() == 0 {
            w
        } else {
            description + seq!['\n'] + w
        },
        None => description,
    }
}

/// The description lines of a row: each line of its text wrapped at
/// `width`.
pub open spec fn row_description_spec(
    description: Seq<char>,
    selected: Option<Seq<char>>,
    width: nat,
) -> Seq<Seq<char>> {
    let lines = rust_lines(descriptions_spec(description, selected));
    Seq::new(lines.len(), |k: int| wrap_words_spec(lines[k], width)).flatten()
}

/// The label of a row: its number, a dot, a space and its text.
pub open spec fn numbered_label_spec(index: nat, label: Seq<char>) -> Seq<char> {
    decimal(index) + ". "@ + label
}

/// What a row of the picker shows: its label (fitted to the label column
/// when a description follows), the first description line beside it, and
/// the further description lines, indented under it.
pub struct RowText {
    pub label: String,
    pub first: Option<String>,
    pub rest: Vec<String>,
}

/// Lays out one row of the picker.
pub fn row_text(
    index: usize,
    label: &str,
    description: &str,
    selected_description: Option<&str>,
    name_width: usize,
    content_width: usize,
) -> (r: RowText)
    requires
        name_width + 5 <= usize::MAX,
    ensures
        ({
            let wrapped = row_description_spec(
                description@,
                opt_str_chars(selected_description),
                description_width_spec(content_width as nat, name_width as nat),
            );
            let numbered = numbered_label_spec(index as nat, label@);
            if wrapped.len() == 0 {
                &&& r.label@ == numbered
                &&& r.first is None
                &&& r.rest@.len() == 0
            } else {
                &&& r.label@ == pad_or_truncate_spec(numbered, (name_width + 3) as nat)
                &&& r.first matches Some(f) && f@ == wrapped[0]
                &&& r.rest@.len() == wrapped.len() - 1
                &&& forall|k: int|
                    0 <= k < r.rest@.len() ==> #[trigger] r.rest@[k]@ == Seq::new(
                        (name_width + 5) as nat,
                        |i: int| ' ',
                    ) + wrapped[k + 1]
            }
        }),
{
    let mut numbered = u64_to_decimal(index as u64);
    push_str(&mut numbered, ". ");
    push_str(&mut numbered, label);
    let width = if content_width >= name_width + 5 && content_width - (name_width + 5) >= 16 {
        content_width - (name_width + 5)
    } else {
        16
    };
    let text = match selected_description {
        Some(selected) => if description.unicode_len() == 0 {
            owned(selected)
        } else {
            let mut t = owned(description);
            push_char(&mut t, '\n');
            push_str(&mut t, selected);
            t
        },
        None => owned(description),
    };
    let ghost ds = descriptions_spec(description@, opt_str_chars(selected_description));
    let ghost w = description_width_spec(content_width as nat, name_width as nat);
    assert(text@ =~= ds);
    assert(width == w);
    let lines = lines_of(text.as_str());
    let ghost ls = crate::wrapping::strings_view(lines@);
    let ghost pieces = Seq::new(ls.len(), |k: int| wrap_words_spec(ls[k], width as nat));
    assert(pieces =~= Seq::new(rust_lines(ds).len(), |k: int| wrap_words_spec(rust_lines(ds)[k], w)));
    let mut wrapped: Vec<String> = Vec::new();
    let mut k: usize = 0;
    assert(pieces.take(0).flatten() =~= Seq::<Seq<char>>::empty());
    assert(crate::wrapping::strings_view(wrapped@) =~= Seq::<Seq<char>>::empty());
    while k < lines.len()
        invariant
            ls == crate::wrapping::strings_view(lines@),
            pieces == Seq::new(ls.len(), |k: int| wrap_words_spec(ls[k], width as nat)),
            k <= lines@.len(),
            crate::wrapping::strings_view(wrapped@) == pieces.take(k as int).flatten(),
        decreases lines.len() - k,
    {
        let more = wrap_words(lines[k].as_str(), width);
        assert(crate::wrapping::strings_view(more@) == pieces[k as int]);
        proof {
            assert(pieces.take(k + 1) =~= pieces.take(k as int).push(pieces[k as int]));
            pieces.take(k as int).lemma_flatten_push(pieces[k as int]);
        }
        let ghost before = wrapped@;
        let mut j: usize = 0;
        assert(crate::wrapping::strings_view(more@).take(0) =~= Seq::<Seq<char>>::empty());
        assert(crate::wrapping::strings_view(wrapped@) =~= crate::wrapping::strings_view(before)
            + Seq::<Seq<char>>::empty());
        while j < more.len()
            invariant
                j <= more@.len(),
                crate::wrapping::strings_view(wrapped@) == crate::wrapping::strings_view(before)
                    + crate::wrapping::strings_view(more@).take(j as int),
            decreases more.len() - j,
        {
            let line = more[j].clone();
            let ghost mid = wrapped@;
            wrapped.push(line);
            assert(crate::wrapping::strings_view(wrapped@) =~= crate::wrapping::strings_view(mid).push(
                line@,
            ));
            assert(crate::wrapping::strings_view(more@).take(j + 1) =~= crate::wrapping::strings_view(
                more@,
            ).take(j as int).push(line@));
            j = j + 1;
        }
        assert(crate::wrapping::strings_view(more@).take(j as int) =~= crate::wrapping::strings_view(
            more@,
        ));
        k = k + 1;
    }
    assert(pieces.take(k as int) =~= pieces);
    let ghost spec_lines = row_description_spec(
        description@,
        opt_str_chars(selected_description),
        description_width_spec(content_width as nat, name_width as nat),
    );
    assert(crate::wrapping::strings_view(wrapped@) == spec_lines);
    proof {
        reveal_strlit(". ");
    }
    if wrapped.len() == 0 {
        return RowText { label: numbered, first: None, rest: Vec::new() };
    }
    let padded = pad_or_truncate(numbered.as_str(), name_width + 3);
    let first = wrapped[0].clone();
    assert(spec_lines[0] == wrapped@[0]@);
    let mut rest: Vec<String> = Vec::new();
    let mut j: usize = 1;
    while j < wrapped.len()
        invariant
            name_width + 5 <= usize::MAX,
            1 <= j <= wrapped@.len(),
            rest@.len() == j - 1,
            forall|m: int|
                0 <= m < rest@.len() ==> #[trigger] rest@[m]@ == Seq::new(
                    (name_width + 5) as nat,
                    |i: int| ' ',
                ) + wrapped@[m + 1]@,
        decreases wrapped.len() - j,
    {
        let mut line = spaces(name_width + 5);
        push_str(&mut line, wrapped[j].as_str());
        rest.push(line);
        j = j + 1;
    }
    assert forall|m: int| 0 <= m < rest@.len() implies #[trigger] rest@[m]@ == Seq::new(
        (name_width + 5) as nat,
        |i: int| ' ',
    ) + spec_lines[m + 1] by {
        assert(spec_lines[m + 1] == wrapped@[m + 1]@);
    }
    RowText { label: padded, first: Some(first), rest }
}

/// `n` spaces.
fn spaces(n: usize) -> (r: String)
    ensures
        r@ == Seq::new(n as nat, |i: int| ' '),
{
    let mut r = String::new();
    let mut k: usize = 0;
    while k < n
        invariant
            k <= n,
            r@ == Seq::new(k as nat, |i: int| ' '),
        decreases n - k,
    {
        push_char(&mut r, ' ');
        k = k + 1;
        assert(r@ =~= Seq::new(k as nat, |i: int| ' '));
    }
    r
}

/// The warning shown under the selected effort that uses up rate limits
/// fastest.
pub const XHIGH_WARNING: &'static str = "⚠ Extra high reasoning effort can quickly consume Plus plan rate limits.";

/// The label of a model row: its id, marked as the model in use or as the
/// server's default.
pub open spec fn model_label_spec(active_model: Option<Seq<char>>, opt: ModelOption) -> Seq<char> {
    if is_current_spec(active_model, opt) {
        opt.id@ + " (current)"@
    } else if opt.is_default {
        opt.id@ + " (default)"@
    } else {
        opt.id@
    }
}

/// The effort in use for `opt`: for the model in use, the active effort
/// or else its default; for another model, none.
pub open spec fn current_effort_spec(
    active_model: Option<Seq<char>>,
    active_effort: Option<Seq<char>>,
    opt: ModelOption,
) -> Option<Seq<char>> {
    if is_current_spec(active_model, opt) {
        if active_effort is Some {
            active_effort
        } else {
            opt_chars(opt.default_reasoning_effort)
        }
    } else {
        None
    }
}

/// The label of an effort row: the effort's label, marked as the effort
/// in use or as the model's default.
pub open spec fn effort_row_label_spec(
    active_model: Option<Seq<char>>,
    active_effort: Option<Seq<char>>,
    opt: ModelOption,
    effort: Seq<char>,
) -> Seq<char> {
    let base = effort_label_spec(effort);
    if Some(effort) == current_effort_spec(active_model, active_effort, opt) {
        base + " (current)"@
    } else if Some(effort) == opt_chars(opt.default_reasoning_effort) {
        base + " (default)"@
    } else {
        base
    }
}

/// Whether an optional text equals `t`.
fn opt_is(o: &Option<String>, t: &str) -> (b: bool)
    ensures
        b == (opt_chars(*o) == Some(t@)),
{
    match o {
        Some(s) => str_eq(s.as_str(), t),
        None => false,
    }
}

impl ModelPicker {
    /// The labels of the model rows.
    pub fn model_labels(&self) -> (r: Vec<String>)
        ensures
            r@.len() == self.options_spec().len(),
            forall|i: int|
                0 <= i < r@.len() ==> #[trigger] r@[i]@ == model_label_spec(
                    self.active_model_spec(),
                    self.options_spec()[i],
                ),
    {
        let mut out: Vec<String> = Vec::new();
        let mut i: usize = 0;
        while i < self.options.len()
            invariant
                i <= self.options@.len(),
                out@.len() == i,
                forall|j: int|
                    0 <= j < i ==> #[trigger] out@[j]@ == model_label_spec(
                        self.active_model_spec(),
                        self.options@[j],
                    ),
            decreases self.options.len() - i,
        {
            let option = &self.options[i];
            let mut label = option.id.clone();
            if self.is_current_model(option) {
                push_str(&mut label, " (current)");
            } else if option.is_default {
                push_str(&mut label, " (default)");
            }
            out.push(label);
            i = i + 1;
        }
        out
    }

    /// The labels of the effort rows of model `model_index`; none for a
    /// model past the list.
    pub fn effort_labels(&self, model_index: usize) -> (r: Vec<String>)
        ensures
            model_index >= self.options_spec().len() ==> r@.len() == 0,
            model_index < self.options_spec().len() ==> {
                let opt = self.options_spec()[model_index as int];
                &&& r@.len() == opt.supported_reasoning_efforts@.len()
                &&& forall|i: int|
                    0 <= i < r@.len() ==> #[trigger] r@[i]@ == effort_row_label_spec(
                        self.active_model_spec(),
                        self.active_effort_spec(),
                        opt,
                        opt.supported_reasoning_efforts@[i].effort@,
                    )
            },
    {
        let mut out: Vec<String> = Vec::new();
        if model_index >= self.options.len() {
            return out;
        }
        let option = &self.options[model_index];
        let current: Option<&String> = if self.is_current_model(option) {
            if self.active_effort.is_some() {
                self.active_effort.as_ref()
            } else {
                option.default_reasoning_effort.as_ref()
            }
        } else {
            None
        };
        let ghost cur = current_effort_spec(
            self.active_model_spec(),
            self.active_effort_spec(),
            *option,
        );
        assert(match current {
            Some(c) => cur == Some(c@),
            None => cur is None,
        });
        let efforts = &option.supported_reasoning_efforts;
        let mut i: usize = 0;
        while i < efforts.len()
            invariant
                i <= efforts@.len(),
                out@.len() == i,
                *efforts == option.supported_reasoning_efforts,
                *option == self.options_spec()[model_index as int],
                match current {
                    Some(c) => cur == Some(c@),
                    None => cur is None,
                },
                cur == current_effort_spec(
                    self.active_model_spec(),
                    self.active_effort_spec(),
                    *option,
                ),
                forall|j: int|
                    0 <= j < i ==> #[trigger] out@[j]@ == effort_row_label_spec(
                        self.active_model_spec(),
                        self.active_effort_spec(),
                        *option,
                        efforts@[j].effort@,
                    ),
            decreases efforts.len() - i,
        {
            let name = efforts[i].effort.as_str();
            let mut label = owned(reasoning_effort_label(name));
            let is_current = match current {
                Some(c) => str_eq(c.as_str(), name),
                None => false,
            };
            if is_current {
                push_str(&mut label, " (current)");
            } else if opt_is(&option.default_reasoning_effort, name) {
                push_str(&mut label, " (default)");
            }
            out.push(label);
            i = i + 1;
        }
        out
    }

    /// The warning under effort row `index` of `option`: shown when that
    /// row is selected and its effort is the one that warns.
    pub fn row_warning(&self, option: &ModelOption, index: usize) -> (r: Option<&'static str>)
        ensures
            r is Some <==> (index == self.selected_spec() && index
                < option.supported_reasoning_efforts@.len() && warning_effort_spec(*option)
                == Some(option.supported_reasoning_efforts@[index as int].effort@)),
            r matches Some(t) ==> t@ == XHIGH_WARNING@,
    {
        if index != self.selected || index >= option.supported_reasoning_efforts.len() {
            return None;
        }
        match warning_effort(option) {
            Some(w) => if str_eq(option.supported_reasoning_efforts[index].effort.as_str(), w) {
                Some(XHIGH_WARNING)
            } else {
                None
            },
            None => None,
        }
    }
}

} // verus!
