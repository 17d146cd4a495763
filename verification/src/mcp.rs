//! The tools the bot offers to language model agents: its system prompt
//! and dice rolls. Serving them over the Model Context Protocol is left to
//! the program around the library.
use vstd::prelude::*;

use crate::dice::{DiceRoll, DiceRollError, DiceRoller, RollerImpl};
use crate::event_processor::Event;
use crate::nlp::response::visible_texts;
use crate::text::{join, join_from, views};
use crate::User;

verus! {

/// What the tool server tells agents about itself.
pub const SERVER_INSTRUCTIONS: &'static str = "Commands available to query and control Ultron";

/// The texts of the system events, oldest first, without their thinking
/// parts.
pub open spec fn system_texts(events: Seq<Event>) -> Seq<Seq<char>>
    decreases events.len(),
{
    if events.len() == 0 {
        seq![]
    } else {
        let prev = system_texts(events.drop_last());
        let e = events.last();
        if e.user == User::System {
            prev.push(join(visible_texts(e.content.parts_view()), seq!['\n']))
        } else {
            prev
        }
    }
}

/// The bot's system prompt: the texts of the system events of the log,
/// one per line.
pub fn system_prompt(events: &Vec<Event>) -> (r: String)
    ensures
        r@ == join(system_texts(events@), seq!['\n']),
{
    let mut texts: Vec<Vec<char>> = Vec::new();
    let mut i: usize = 0;
    proof {
        assert(events@.take(0) =~= Seq::<Event>::empty());
        assert(views(texts@) =~= system_texts(events@.take(0)));
    }
    while i < events.len()
        invariant
            i <= events.len(),
            views(texts@) == system_texts(events@.take(i as int)),
        decreases events.len() - i,
    {
        let ghost before = views(texts@);
        proof {
            assert(events@.take(i + 1).drop_last() =~= events@.take(i as int));
            assert(events@.take(i + 1).last() == events@[i as int]);
        }
        let event = &events[i];
        match &event.user {
            User::System => {
                let text = event.content.render_without_thinking_parts();
                texts.push(crate::text::chars_of(text.as_str()));
                proof {
                    assert(views(texts@) =~= before.push(text@));
                }
            },
            _ => {},
        }
        i = i + 1;
    }
    proof {
        assert(events@.take(events.len() as int) =~= events@);
        assert(views(texts@).subrange(0, texts.len() as int) =~= views(texts@));
    }
    let sep: Vec<char> = vec!['\n'];
    proof {
        assert(sep@ =~= seq!['\n']);
    }
    crate::text::string_of(&join_from(&texts, 0, &sep))
}

/// Rolls a dice expression for an agent: the written-out roll with its
/// total, or why it could not be rolled.
pub fn roll_dice<TRoller: RollerImpl>(roller: DiceRoller<TRoller>, expression: &str) -> (r: Result<
    DiceRoll,
    DiceRollError,
>)
    ensures
        !crate::dice::dice_expr_accepts(expression@) ==> (r matches Err(e)
            && crate::dice::dice_error_kind(e) == 0),
        r matches Err(DiceRollError::Parse(e)) ==> crate::dice::dice_parse_error(expression@)
            == Some(e.details@),
{
    match roller.roll_string(expression) {
        Ok(evaled) => DiceRoll::try_from_evaled(evaled),
        Err(e) => Err(e),
    }
}

} // verus!
