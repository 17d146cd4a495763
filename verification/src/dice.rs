//! Parsing and rolling dice expressions such as `2d20k1 + 3`.
//!
//! The `tyche` crate parses, rolls and totals the expressions; this
//! module decides what is asked of it and how its answers are shown.
use vstd::prelude::*;

use tyche::expr::Describe;

use crate::text::{chars_eq_str, chars_of, decimal, format_i64, string_of};

verus! {

/// The help text for dice rolls.
pub const HELP_MESSAGE: &'static str = "
roll a d20: `d20`
roll _2_ d20s: `2d20`
roll a d6 and a d8: `d6 + d8`
roll with advantage: `2d20K1` (k for \"keep\")
roll with disadvantage: `2d20k1`
keep the highest 3 of 4d6: `4d6K3`

input is passed as is to the `caith` crate:
https://docs.rs/caith/4.2.4/caith/#syntax
";

// ---------------------------------------------------------------------
// the types of tyche that pass through this module
// ---------------------------------------------------------------------

#[verifier::external_type_specification]
#[verifier::external_body]
pub struct ExExpr(tyche::Expr);

#[verifier::external_type_specification]
#[verifier::external_body]
pub struct ExEvaled<'a>(tyche::expr::Evaled<'a>);

#[verifier::external_type_specification]
#[verifier::external_body]
pub struct ExEvalError(tyche::expr::EvalError);

#[verifier::external_type_specification]
#[verifier::external_body]
pub struct ExCalcError(tyche::expr::CalcError);

#[verifier::external_type_specification]
#[verifier::external_body]
pub struct ExFastRand(tyche::dice::roller::FastRand);

#[verifier::external_type_specification]
#[verifier::external_body]
pub struct ExMax(tyche::dice::roller::Max);

// ---------------------------------------------------------------------
// calls into tyche
// ---------------------------------------------------------------------

/// What tyche's parser reports for `input`: nothing when it accepts the
/// text as a dice expression, else the details of its error.
pub uninterp spec fn dice_parse_error(input: Seq<char>) -> Option<Seq<char>>;

/// Whether tyche's parser accepts `input` as a dice expression.
pub open spec fn dice_expr_accepts(input: Seq<char>) -> bool {
    dice_parse_error(input) is None
}

/// Why tyche's parser rejected a dice expression: the details it gave.
#[derive(Debug, Clone, PartialEq)]
pub struct DiceParseError {
    pub details: String,
}

/// `<tyche::Expr as FromStr>::from_str`: parses a dice expression (after
/// lower-casing it), keeping the details of a parse error. Whether it
/// succeeds, and those details, depend on the text alone.
#[verifier::external_body]
fn parse_expr(input: &str) -> (r: Result<tyche::Expr, DiceParseError>)
    ensures
        match r {
            Ok(_) => dice_parse_error(input@) is None,
            Err(e) => dice_parse_error(input@) == Some(e.details@),
        },
{
    input.parse::<tyche::Expr>().map_err(|e| DiceParseError { details: e.details })
}

/// `tyche::expr::Evaled::calc`: the total of a rolled expression, or an
/// overflow or division error. Nothing is stated of the value.
#[verifier::external_body]
fn calc_total(evaled: &tyche::expr::Evaled<'static>) -> (r: Result<i32, tyche::expr::CalcError>) {
    evaled.calc()
}

/// `tyche::expr::Describe::describe` with no limit on listed rolls: the
/// rolled expression written out with its individual rolls. Nothing is
/// stated of the text.
#[verifier::external_body]
fn describe_evaled(evaled: &tyche::expr::Evaled<'static>) -> (r: String) {
    evaled.describe(None)
}

/// `Display` for `tyche::expr::EvalError`.
#[verifier::external_body]
fn eval_error_text(e: &tyche::expr::EvalError) -> (r: String) {
    e.to_string()
}

/// `Display` for `tyche::expr::CalcError`.
#[verifier::external_body]
fn calc_error_text(e: &tyche::expr::CalcError) -> (r: String) {
    e.to_string()
}

/// `tyche::dice::roller::FastRand::with_seed`: a random roller seeded
/// with `seed`.
#[verifier::external_body]
fn fast_rand_with_seed(seed: u64) -> (r: tyche::dice::roller::FastRand) {
    tyche::dice::roller::FastRand::with_seed(seed)
}

/// `Default` for `tyche::dice::roller::FastRand`: a random roller seeded
/// from the environment.
#[verifier::external_body]
fn fast_rand_default() -> (r: tyche::dice::roller::FastRand) {
    tyche::dice::roller::FastRand::default()
}

/// `Default` for `tyche::dice::roller::Max`: a roller whose every die
/// shows its highest side.
#[verifier::external_body]
fn max_roller() -> (r: tyche::dice::roller::Max) {
    tyche::dice::roller::Max
}

/// A roller of dice that tyche can evaluate expressions with.
pub trait RollerImpl: Clone {
    /// Rolls the dice of `expr` (`tyche::Expr::eval`).
    fn eval_expr(&mut self, expr: &tyche::Expr) -> Result<
        tyche::expr::Evaled<'static>,
        tyche::expr::EvalError,
    >;
}

/// `tyche::Expr::eval` with a random roller; the rolls are random, so
/// nothing is stated of the result.
#[verifier::external_body]
fn eval_with_fast_rand(roller: &mut tyche::dice::roller::FastRand, expr: &tyche::Expr) -> (r: Result<
    tyche::expr::Evaled<'static>,
    tyche::expr::EvalError,
>) {
    expr.eval(roller).map(|e| e.into_owned())
}

/// `tyche::Expr::eval` with the roller that always rolls the highest
/// side. Nothing is stated of the result.
#[verifier::external_body]
fn eval_with_max(roller: &mut tyche::dice::roller::Max, expr: &tyche::Expr) -> (r: Result<
    tyche::expr::Evaled<'static>,
    tyche::expr::EvalError,
>) {
    expr.eval(roller).map(|e| e.into_owned())
}

impl RollerImpl for tyche::dice::roller::FastRand {
    fn eval_expr(&mut self, expr: &tyche::Expr) -> (r: Result<
        tyche::expr::Evaled<'static>,
        tyche::expr::EvalError,
    >) {
        eval_with_fast_rand(self, expr)
    }
}

impl RollerImpl for tyche::dice::roller::Max {
    fn eval_expr(&mut self, expr: &tyche::Expr) -> (r: Result<
        tyche::expr::Evaled<'static>,
        tyche::expr::EvalError,
    >) {
        eval_with_max(self, expr)
    }
}

// ---------------------------------------------------------------------
// the dice roller
// ---------------------------------------------------------------------

/// Why a dice roll failed.
#[derive(Debug)]
pub enum DiceRollError {
    Parse(DiceParseError),
    Eval(tyche::expr::EvalError),
    Calc(tyche::expr::CalcError),
}

/// 0 parse, 1 evaluation, 2 calculation.
pub open spec fn dice_error_kind(e: DiceRollError) -> int {
    match e {
        DiceRollError::Parse(_) => 0,
        DiceRollError::Eval(_) => 1,
        DiceRollError::Calc(_) => 2,
    }
}

impl DiceRollError {
    /// The error's message (`Display` for the error): a fixed lead-in
    /// followed by tyche's own description, which for a parse error is
    /// its details.
    pub fn to_string(&self) -> (r: String)
        ensures
            match *self {
                DiceRollError::Parse(e) => r@ == "failed to parse dice roll from input: "@
                    + e.details@,
                DiceRollError::Eval(_) => exists|detail: Seq<char>|
                    r@ == "failed to evaluate dice roll: "@ + detail,
                DiceRollError::Calc(_) => exists|detail: Seq<char>|
                    r@ == "failed to calculate dice roll: "@ + detail,
            },
    {
        match self {
            DiceRollError::Parse(e) => {
                let mut r = String::from_str("failed to parse dice roll from input: ");
                r.append(e.details.as_str());
                r
            },
            DiceRollError::Eval(e) => {
                let d = eval_error_text(e);
                let mut r = String::from_str("failed to evaluate dice roll: ");
                r.append(d.as_str());
                r
            },
            DiceRollError::Calc(e) => {
                let d = calc_error_text(e);
                let mut r = String::from_str("failed to calculate dice roll: ");
                r.append(d.as_str());
                r
            },
        }
    }
}

/// A cloneable dice roller that owns the random number generator.
#[derive(Debug, Clone)]
pub struct DiceRoller<TInner> {
    inner: TInner,
}

impl<TInner: RollerImpl> DiceRoller<TInner> {
    pub closed spec fn roller(&self) -> TInner {
        self.inner
    }

    /// A roller around the given tyche roller.
    pub fn from_roller(inner: TInner) -> (r: Self)
        ensures
            r.roller() == inner,
    {
        DiceRoller { inner }
    }

    /// Rolls the dice of an expression.
    pub fn roll_expr(self, expr: tyche::Expr) -> (r: Result<
        tyche::expr::Evaled<'static>,
        DiceRollError,
    >)
        ensures
            r matches Err(e) ==> dice_error_kind(e) == 1,
    {
        let mut inner = self.inner;
        match inner.eval_expr(&expr) {
            Ok(e) => Ok(e),
            Err(e) => Err(DiceRollError::Eval(e)),
        }
    }

    /// Parses `input` and rolls its dice.
    pub fn roll_string(self, input: &str) -> (r: Result<
        tyche::expr::Evaled<'static>,
        DiceRollError,
    >)
        ensures
            !dice_expr_accepts(input@) <==> (r matches Err(e) && dice_error_kind(e) == 0),
            r matches Err(DiceRollError::Parse(e)) ==> dice_parse_error(input@) == Some(
                e.details@,
            ),
            r matches Err(e) ==> dice_error_kind(e) == 0 || dice_error_kind(e) == 1,
    {
        match parse_expr(input) {
            Ok(expr) => self.roll_expr(expr),
            Err(e) => Err(DiceRollError::Parse(e)),
        }
    }
}

impl DiceRoller<tyche::dice::roller::FastRand> {
    /// A random roller with a fixed seed.
    pub fn with_rng(seed: u64) -> (r: Self) {
        DiceRoller { inner: fast_rand_with_seed(seed) }
    }

    /// A random roller seeded from the environment.
    pub fn with_default_rng() -> (r: Self) {
        DiceRoller { inner: fast_rand_default() }
    }
}

impl DiceRoller<tyche::dice::roller::Max> {
    /// A roller whose dice always show their highest side.
    pub fn max() -> (r: Self) {
        DiceRoller { inner: max_roller() }
    }
}

/// A rolled expression with its total.
#[derive(Debug, Clone, PartialEq)]
pub struct DiceRoll {
    evaluated_expression: String,
    total: i32,
}

/// How a roll is shown: `_<rolls>_ = **<total>**`.
pub open spec fn dice_roll_text(evaluated_expression: Seq<char>, total: int) -> Seq<char> {
    "_"@ + evaluated_expression + "_ = **"@ + decimal(total) + "**"@
}

impl DiceRoll {
    pub closed spec fn expression_view(&self) -> Seq<char> {
        self.evaluated_expression@
    }

    pub closed spec fn total_view(&self) -> int {
        self.total as int
    }

    /// Totals a rolled expression and writes it out.
    pub fn try_from_evaled(evaled: tyche::expr::Evaled<'static>) -> (r: Result<
        DiceRoll,
        DiceRollError,
    >)
        ensures
            r matches Err(e) ==> dice_error_kind(e) == 2,
    {
        match calc_total(&evaled) {
            Ok(total) => {
                let evaluated_expression = describe_evaled(&evaled);
                Ok(DiceRoll { evaluated_expression, total })
            },
            Err(e) => Err(DiceRollError::Calc(e)),
        }
    }

    /// The total of the roll.
    pub fn total(&self) -> (r: i32)
        ensures
            r as int == self.total_view(),
    {
        self.total
    }

    /// The rolled expression written out.
    pub fn evaluated_expression(&self) -> (r: &String)
        ensures
            r@ == self.expression_view(),
    {
        &self.evaluated_expression
    }

    /// The roll as chat text (`Display` for the roll).
    pub fn to_string(&self) -> (r: String)
        ensures
            r@ == dice_roll_text(self.expression_view(), self.total_view()),
    {
        let mut r = String::from_str("_");
        r.append(self.evaluated_expression.as_str());
        r.append("_ = **");
        let t = string_of(&format_i64(self.total as i64));
        r.append(t.as_str());
        r.append("**");
        r
    }
}

/// The outcome of a roll request: a roll, or the help text.
#[derive(Debug, Clone)]
pub enum DiceRollResult {
    Roll(DiceRoll),
    Help(&'static str),
}

impl DiceRollResult {
    /// `"help"` gives the help text; any other input is parsed as a dice
    /// expression, rolled and totalled.
    pub fn from_str<TRoller: RollerImpl>(input: &str, roller: DiceRoller<TRoller>) -> (r: Result<
        Self,
        DiceRollError,
    >)
        ensures
            input@ == "help"@ ==> (r matches Ok(DiceRollResult::Help(h)) && h@ == HELP_MESSAGE@),
            input@ != "help"@ ==> (r matches Ok(res) ==> res is Roll),
            input@ != "help"@ ==> (!dice_expr_accepts(input@) <==> (r matches Err(e)
                && dice_error_kind(e) == 0)),
            r matches Err(DiceRollError::Parse(e)) ==> dice_parse_error(input@) == Some(
                e.details@,
            ),
    {
        if chars_eq_str(&chars_of(input), "help") {
            return Ok(DiceRollResult::Help(HELP_MESSAGE));
        }
        match roller.roll_string(input) {
            Ok(evaled) => match DiceRoll::try_from_evaled(evaled) {
                Ok(roll) => Ok(DiceRollResult::Roll(roll)),
                Err(e) => Err(e),
            },
            Err(e) => Err(e),
        }
    }

    /// The result as chat text (`Display` for the result).
    pub fn to_string(&self) -> (r: String)
        ensures
            r@ == match *self {
                DiceRollResult::Roll(roll) => dice_roll_text(
                    roll.expression_view(),
                    roll.total_view(),
                ),
                DiceRollResult::Help(h) => h@,
            },
    {
        match self {
            DiceRollResult::Roll(roll) => roll.to_string(),
            DiceRollResult::Help(h) => String::from_str(h),
        }
    }
}

/// How the command server classifies a failed roll for its callers.
#[derive(Debug, Clone, Copy, PartialEq, Eq, Structural)]
pub enum ToolErrorCode {
    /// the request itself was malformed
    InvalidRequest,
    /// the request was well formed but its parameters could not be used
    InvalidParams,
}

/// A parse failure is a malformed request; an evaluation or calculation
/// failure is a bad parameter.
pub fn tool_error_code(e: &DiceRollError) -> (r: ToolErrorCode)
    ensures
        dice_error_kind(*e) == 0 <==> r == ToolErrorCode::InvalidRequest,
{
    match e {
        DiceRollError::Parse(_) => ToolErrorCode::InvalidRequest,
        DiceRollError::Eval(_) => ToolErrorCode::InvalidParams,
        DiceRollError::Calc(_) => ToolErrorCode::InvalidParams,
    }
}

} // verus!
