//! Settings as they are written down, and how they become passes.

use crate::engine::{deepfry_all, same_beyond_pixels, spec_fry_all, DeepfryAlgorithm};
use crate::mode::ChangeMode;
use crate::raster::Raster;
use crate::text::holds_text;
use vstd::prelude::*;

verus! {

/// A configuration for an algorithm.
#[derive(Debug, Clone)]
pub struct AlgorithmConfig {
    pub algorithm: String,
    pub change_mode: Option<String>,
    pub red: Option<u32>,
    pub green: Option<u32>,
    pub blue: Option<u32>,
}

/// A preset for deepfrying images using several algorithms
/// and configs without running multiple commands.
#[derive(Debug, Clone)]
pub struct Preset {
    pub algorithms: Vec<AlgorithmConfig>,
}

/// Why a configuration stands for no pass.
#[derive(Debug, Clone, PartialEq, Eq)]
pub enum ValidationError {
    /// The algorithm's name is not a known one; the name is carried along.
    UnknownOperation(String),
    /// A bit change that names no mode.
    MissingMode,
    /// A bit change whose mode's name is not a known one; the name is
    /// carried along.
    UnknownMode(String),
}

/// A `ValidationError` with its strings as sequences of characters.
pub enum ValidationErrorView {
    UnknownOperation(Seq<char>),
    MissingMode,
    UnknownMode(Seq<char>),
}

impl View for ValidationError {
    type V = ValidationErrorView;

    open spec fn view(&self) -> ValidationErrorView {
        match self {
            ValidationError::UnknownOperation(name) => ValidationErrorView::UnknownOperation(name@),
            ValidationError::MissingMode => ValidationErrorView::MissingMode,
            ValidationError::UnknownMode(name) => ValidationErrorView::UnknownMode(name@),
        }
    }
}

/// How `Debug` prints an optional string.
pub uninterp spec fn debug_text(mode: Option<Seq<char>>) -> Seq<char>;

/// Formats an optional string with `{:?}`, that is through the `Debug` impl
/// of `Option<String>`. Not proved: that the text is the one `debug_text`
/// names, which is to say that it depends on the characters alone.
#[verifier::external_body]
fn debug_form(mode: &Option<String>) -> (text: String)
    ensures
        text@ == debug_text(mode.deep_view()),
{
    format!("{:?}", mode)
}

/// The text for a bit change whose mode is not known; `shown` is the mode
/// as it is shown to the user.
pub open spec fn invalid_mode_message(shown: Seq<char>) -> Seq<char> {
    "invalid bit changing mode "@ + shown
}

/// The text for a bit change whose mode is not known.
pub fn invalid_mode(shown: &str) -> (message: String)
    ensures
        message@ == invalid_mode_message(shown@),
{
    let mut message = String::from_str("invalid bit changing mode ");
    message.append(shown);
    message
}

impl ValidationErrorView {
    /// The error in words.
    pub open spec fn message(self) -> Seq<char> {
        match self {
            ValidationErrorView::UnknownOperation(name) => "invalid algorithm: "@ + name,
            ValidationErrorView::MissingMode => "bit changing mode is not set"@,
            ValidationErrorView::UnknownMode(name) => invalid_mode_message(
                debug_text(Some(name)),
            ),
        }
    }
}

impl ValidationError {
    /// The error in words, naming the offending value.
    pub fn message(&self) -> (text: String)
        ensures
            text@ == self@.message(),
    {
        match self {
            ValidationError::UnknownOperation(name) => {
                let mut text = String::from_str("invalid algorithm: ");
                text.append(name.as_str());
                text
            },
            ValidationError::MissingMode => String::from_str("bit changing mode is not set"),
            ValidationError::UnknownMode(name) => {
                let shown = debug_form(&Some(name.clone()));
                invalid_mode(shown.as_str())
            },
        }
    }
}

/// A parameter that was left out counts as zero.
pub open spec fn or_zero(parameter: Option<u32>) -> u32 {
    match parameter {
        Some(p) => p,
        None => 0,
    }
}

impl AlgorithmConfig {
    /// The pass that the configuration stands for, or why it stands for
    /// none. The one known algorithm is `BitChange`; it needs a mode, named
    /// exactly, and takes zero for each parameter that was left out.
    pub open spec fn spec_validate(&self) -> Result<DeepfryAlgorithm, ValidationErrorView> {
        if self.algorithm@ != "BitChange"@ {
            Err(ValidationErrorView::UnknownOperation(self.algorithm@))
        } else {
            match self.change_mode {
                None => Err(ValidationErrorView::MissingMode),
                Some(name) => match ChangeMode::spec_from_string(name@) {
                    Some(mode) => Ok(
                        DeepfryAlgorithm::BitChange(
                            mode,
                            or_zero(self.red),
                            or_zero(self.green),
                            or_zero(self.blue),
                        ),
                    ),
                    None => Err(ValidationErrorView::UnknownMode(name@)),
                },
            }
        }
    }

    /// The pass that the configuration stands for, or the error in words.
    pub open spec fn spec_algo(&self) -> Result<DeepfryAlgorithm, Seq<char>> {
        match self.spec_validate() {
            Ok(algo) => Ok(algo),
            Err(error) => Err(error.message()),
        }
    }

    /// Validates the configuration without using it up.
    pub fn validate(&self) -> (r: Result<DeepfryAlgorithm, ValidationError>)
        ensures
            match self.spec_validate() {
                Ok(algo) => r == Ok::<DeepfryAlgorithm, ValidationError>(algo),
                Err(error) => r is Err && r->Err_0@ == error,
            },
    {
        if !holds_text(&self.algorithm, "BitChange") {
            return Err(ValidationError::UnknownOperation(self.algorithm.clone()));
        }
        match &self.change_mode {
            None => Err(ValidationError::MissingMode),
            Some(name) => match ChangeMode::from_string(name.as_str()) {
                Ok(mode) => Ok(
                    DeepfryAlgorithm::BitChange(
                        mode,
                        value_or_zero(self.red),
                        value_or_zero(self.green),
                        value_or_zero(self.blue),
                    ),
                ),
                Err(_) => Err(ValidationError::UnknownMode(name.clone())),
            },
        }
    }

    /// Validates the configuration and turns it into the pass it stands
    /// for; an error comes in words.
    pub fn algo(self) -> (r: Result<DeepfryAlgorithm, String>)
        ensures
            match self.spec_algo() {
                Ok(algo) => r == Ok::<DeepfryAlgorithm, String>(algo),
                Err(message) => r is Err && r->Err_0@ == message,
            },
    {
        match self.validate() {
            Ok(algo) => Ok(algo),
            Err(error) => Err(error.message()),
        }
    }
}

impl Preset {
    /// Whether every configuration stands for a pass.
    pub open spec fn spec_all_valid(&self) -> bool {
        forall|i: int|
            0 <= i < self.algorithms@.len() ==> (#[trigger] self.algorithms@[i]).spec_validate()
                is Ok
    }

    /// Whether configuration `k` is the first that stands for no pass.
    pub open spec fn spec_first_invalid(&self, k: int) -> bool {
        &&& 0 <= k < self.algorithms@.len()
        &&& self.algorithms@[k].spec_validate() is Err
        &&& forall|j: int| 0 <= j < k ==> (#[trigger] self.algorithms@[j]).spec_validate() is Ok
    }

    /// The passes that the configurations stand for, in their order.
    pub open spec fn spec_algos(&self) -> Seq<DeepfryAlgorithm> {
        Seq::new(self.algorithms@.len(), |i: int| self.algorithms@[i].spec_validate()->Ok_0)
    }

    /// Whether `outcome` is what validating the whole preset gives: all its
    /// passes in order, or the error of the first configuration that is not
    /// valid.
    pub open spec fn spec_is_outcome(
        &self,
        outcome: Result<Seq<DeepfryAlgorithm>, ValidationErrorView>,
    ) -> bool {
        match outcome {
            Ok(passes) => self.spec_all_valid() && passes == self.spec_algos(),
            Err(error) => exists|k: int|
                self.spec_first_invalid(k) && (#[trigger] self.algorithms@[k]).spec_validate()
                    == Err::<DeepfryAlgorithm, ValidationErrorView>(error),
        }
    }

    /// Validates every configuration and gives the passes in the preset's
    /// order. The first configuration that is not valid fails the whole
    /// preset, with its own error.
    pub fn algos(&self) -> (r: Result<Vec<DeepfryAlgorithm>, ValidationError>)
        ensures
            match r {
                Ok(passes) => self.spec_is_outcome(Ok(passes@)),
                Err(error) => self.spec_is_outcome(Err(error@)),
            },
    {
        let mut passes: Vec<DeepfryAlgorithm> = Vec::new();
        let mut i: usize = 0;
        while i < self.algorithms.len()
            invariant
                i <= self.algorithms.len(),
                passes@.len() == i,
                forall|j: int|
                    0 <= j < i ==> (#[trigger] self.algorithms@[j]).spec_validate() == Ok::<
                        DeepfryAlgorithm,
                        ValidationErrorView,
                    >(passes@[j]),
            decreases self.algorithms.len() - i,
        {
            match self.algorithms[i].validate() {
                Ok(pass) => {
                    passes.push(pass);
                },
                Err(error) => {
                    assert(self.spec_first_invalid(i as int));
                    return Err(error);
                },
            }
            i = i + 1;
        }
        assert(passes@ =~= self.spec_algos());
        Ok(passes)
    }
}

/// Deepfries an image with every pass of a preset, in the preset's order.
/// The preset is validated as a whole first: if any configuration is not
/// valid, the image is left as it was.
pub fn deepfry_preset(image: &mut Raster, preset: &Preset) -> (r: Result<(), ValidationError>)
    ensures
        same_beyond_pixels(*old(image), *final(image)),
        match r {
            Ok(_) => preset.spec_all_valid() && final(image)@ == spec_fry_all(
                preset.spec_algos(),
                old(image)@,
            ),
            Err(error) => *final(image) == *old(image) && preset.spec_is_outcome(Err(error@)),
        },
{
    match preset.algos() {
        Ok(passes) => {
            deepfry_all(image, &passes);
            Ok(())
        },
        Err(error) => Err(error),
    }
}

/// The error for a run that names neither a mode nor a preset.
pub open spec fn nothing_selected_message() -> Seq<char> {
    "no bit change mode or preset specified"@
}

/// The error for a run whose preset is not valid; `reason` is the error of
/// its first configuration that is not valid, in words.
pub open spec fn invalid_preset_message(reason: Seq<char>) -> Seq<char> {
    "error while validating preset "@ + reason
}

/// The passes that a run was asked for. A preset, where one is given, is
/// validated and decides; else the mode with the three parameters makes one
/// pass; with neither there is nothing to run, which is an error.
pub fn select_passes(
    mode: Option<ChangeMode>,
    preset: Option<Preset>,
    red: u32,
    green: u32,
    blue: u32,
) -> (r: Result<Vec<DeepfryAlgorithm>, String>)
    ensures
        match (preset, mode) {
            (Some(preset), _) => match r {
                Ok(passes) => preset.spec_is_outcome(Ok(passes@)),
                Err(message) => exists|error: ValidationErrorView|
                    #[trigger] preset.spec_is_outcome(Err(error)) && message@
                        == invalid_preset_message(error.message()),
            },
            (None, Some(mode)) => r is Ok && r->Ok_0@ == seq![
                DeepfryAlgorithm::BitChange(mode, red, green, blue),
            ],
            (None, None) => r is Err && r->Err_0@ == nothing_selected_message(),
        },
{
    match preset {
        Some(preset) => match preset.algos() {
            Ok(passes) => Ok(passes),
            Err(error) => {
                let mut message = String::from_str("error while validating preset ");
                message.append(error.message().as_str());
                Err(message)
            },
        },
        None => match mode {
            Some(mode) => {
                let mut passes: Vec<DeepfryAlgorithm> = Vec::new();
                passes.push(DeepfryAlgorithm::BitChange(mode, red, green, blue));
                assert(passes@ =~= seq![DeepfryAlgorithm::BitChange(mode, red, green, blue)]);
                Ok(passes)
            },
            None => Err(String::from_str("no bit change mode or preset specified")),
        },
    }
}

/// A parameter, or zero where it was left out.
fn value_or_zero(parameter: Option<u32>) -> (p: u32)
    ensures
        p == or_zero(parameter),
{
    match parameter {
        Some(p) => p,
        None => 0,
    }
}

} // verus!
