use ultron::db::rules::{check_item_created, check_item_updated, check_transfer_records};
use ultron::admin;
use ultron::chat::{Channel, Message, Server, User};
use ultron::cli::{startup_message, Cli};
use ultron::coin_bot::messages::{
    bad_daily_embed, bet_too_high_embed, daily_embed, format_account, gamble_embed, help_embed, inventory_embed,
    item_purchased_embed, shop_embed, transfer_embed, Colour, EmbedField,
};
use ultron::coin_bot::{
    answer_without_bank, check_bet, daily_output, gamble_settlement, gamble_stake,
    transfer_output, CoinTransfer, Output,
};
use ultron::coins::daily::{daily_amount, daily_epoch_at, DailyLog};
use ultron::coins::ledger::{Accounts, Ledger};
use ultron::commands::Command;
use ultron::copypasta::{get, RUST};
use ultron::db::error::DbError;
use ultron::db::ids::{ServerId, UserId};
use ultron::db::model::{BankAccount, ChannelUser, InventoryItem, Item, TransferResult};
use ultron::db::rules::{
    adjusted_balance, check_beg, check_inventory_insert, check_item_deleted, check_tip,
    check_tip_records, coin_amount, keeps_beggar_cup, purchase, single_account,
    transfer_amounts, AdjustError,
};
use ultron::error::BotError;
use ultron::gambling::{dice_outcome, Gamble, GambleError, GambleOutput, Game, Prize, State};
use ultron::items::ItemType;
use ultron::text::IntErrorKind;
use ultron::coin_bot::process::{resume, start, BankAnswer, BankRequest, CommandState, Step};
use ultron::coin_bot::{
    buyer_nick, fallback_name, handles_message_from, item_for_emoji, purchase_reply, reply_for, shop_action,
    Reply, ShopAction,
};
use ultron::coins::daily::{check_daily_records, daily_epoch};

fn message(content: &str, mentions: Vec<u64>) -> Message {
    Message {
        id: 1,
        content: content.to_string(),
        user: User { id: 10 },
        channel: Channel { id: 20 },
        server: Server { id: 30 },
        timestamp: 0,
        mentions: mentions.into_iter().map(User::from).collect(),
    }
}

#[test]
fn test_commands() {}

#[test]
fn coin_commands_parse() {
    assert_eq!(Command::parse_message(&message("hello", vec![])), Ok(Command::NotACommand));
    assert_eq!(Command::parse_message(&message("!ping", vec![])), Ok(Command::Ping));
    assert_eq!(Command::parse_message(&message("!help", vec![])), Ok(Command::Help));
    assert_eq!(
        Command::parse_message(&message("!coins", vec![])),
        Ok(Command::GetAllBalances { server_id: 30, channel_id: 20 })
    );
    assert_eq!(
        Command::parse_message(&message("!daily", vec![])),
        Ok(Command::Daily { server_id: 30, user_id: 10 })
    );
    assert_eq!(
        Command::parse_message(&message("!copypasta rust", vec![])),
        Ok(Command::CopyPasta { text: RUST.to_string() })
    );
    assert_eq!(
        Command::parse_message(&message("!copypasta pizza", vec![])),
        Err(BotError::CommandParse("unknown copypasta".to_string()))
    );
    assert_eq!(
        Command::parse_message(&message("!dance now", vec![])),
        Err(BotError::UnknownCommand("unknown command: dance".to_string()))
    );
}

#[test]
fn gamble_commands_parse() {
    assert_eq!(
        Command::parse_message(&message("!gamble  all ", vec![])),
        Ok(Command::Gamble(Gamble::new(10, Prize::AllCoins, Game::DiceRoll(10))))
    );
    assert_eq!(
        Command::parse_message(&message("!gamble 25", vec![])),
        Ok(Command::Gamble(Gamble::new(10, Prize::Coins(25), Game::DiceRoll(10))))
    );
    assert_eq!(
        Command::parse_message(&message("!gamble -3", vec![])),
        Err(BotError::CommandParse("negative gamble amount: -3".to_string()))
    );
    assert_eq!(
        Command::parse_message(&message("!gamble lots", vec![])),
        Err(BotError::CommandParse("unable to parse gamble args: lots".to_string()))
    );
}

#[test]
fn give_commands_parse() {
    assert_eq!(
        Command::parse_message(&message("!give @bob 15", vec![7])),
        Ok(Command::Transfer { from_user: 10, to_user: 7, amount: 15 })
    );
    assert_eq!(
        Command::parse_message(&message("!give @bob 15", vec![])),
        Err(BotError::CommandParse("no users mentioned in give command".to_string()))
    );
    assert_eq!(
        Command::parse_message(&message("!give @bob @al 15", vec![7, 8])),
        Err(BotError::CommandParse("for now you can only give one user coins".to_string()))
    );
    assert_eq!(
        Command::parse_message(&message("!give @bob", vec![7])),
        Err(BotError::CommandParse("unable to get amount argument".to_string()))
    );
    assert_eq!(
        Command::parse_message(&message("!give @bob lots", vec![7])),
        Err(BotError::CommandParse(
            "command should end with amount: ParseIntError { kind: InvalidDigit }".to_string()
        ))
    );
    assert_eq!(
        Command::parse_message(&message("!give @bob -4", vec![7])),
        Err(BotError::CommandParse("cannot transfer a negative amount".to_string()))
    );
}

#[test]
fn reactions_tip_and_untip() {
    assert_eq!(
        Command::parse_reaction(1, 2, Some(3), Some("👍".to_string())),
        Ok(Command::Tip { server_id: 1, from_user: 3, to_user: 2 })
    );
    assert_eq!(
        Command::parse_reaction_removed(1, 2, Some(3), Some("LAUGH".to_string())),
        Ok(Command::Untip { server_id: 1, from_user: 3, to_user: 2 })
    );
    assert_eq!(
        Command::parse_reaction(1, 2, Some(3), Some("🍕".to_string())),
        Ok(Command::NotACommand)
    );
    assert_eq!(
        Command::parse_reaction(1, 2, None, Some("👍".to_string())),
        Err(BotError::CommandParse("no user in reaction".to_string()))
    );
    assert_eq!(
        Command::parse_reaction(1, 2, Some(3), None),
        Err(BotError::CommandParse("no name found for custom emoji".to_string()))
    );
}

#[test]
fn builtin_copy_pastas() {
    assert_eq!(get("rust"), Some(RUST.to_string()));
    assert!(get("mr. robot").unwrap().ends_with("Nothin personnel kid 😎\n"));
    assert!(get("open source maintainers").is_some());
    assert_eq!(get("nothing"), None);
}

#[test]
fn gambles_play_once() {
    let gamble = Gamble::new(4, Prize::Coins(10), Game::DiceRoll(6));
    let GambleOutput::DiceRoll { player_id, prize, house_roll, player_roll, state } =
        gamble.play().expect("a new gamble can be played");
    assert_eq!(player_id, 4);
    assert_eq!(prize, Prize::Coins(10));
    assert!(house_roll < 6 && player_roll < 6);
    let expected = if player_roll > house_roll {
        State::Win
    } else if player_roll == house_roll {
        State::Draw
    } else {
        State::Lose
    };
    assert_eq!(state, expected);

    let played = Gamble { state: State::Win, ..Gamble::new(4, Prize::AllCoins, Game::DiceRoll(6)) };
    assert_eq!(played.play(), Err(GambleError::InvalidState(State::Win)));
}

#[test]
fn dice_outcomes() {
    assert!(matches!(dice_outcome(1, Prize::AllCoins, 5, 2), GambleOutput::DiceRoll { state: State::Win, .. }));
    assert!(matches!(dice_outcome(1, Prize::AllCoins, 2, 2), GambleOutput::DiceRoll { state: State::Draw, .. }));
    assert!(matches!(dice_outcome(1, Prize::AllCoins, 1, 2), GambleOutput::DiceRoll { state: State::Lose, .. }));
    assert_eq!(Prize::from(7), Prize::Coins(7));
}

#[test]
fn ledger_transfers_conserve_coins() {
    let mut ledger = Ledger::new();
    ledger.increment_balance(&1, 100);
    ledger.transfer(&1, &2, 30);
    assert_eq!(ledger.get_balance(&1), 70);
    assert_eq!(ledger.get_balance(&2), 30);
    ledger.transfer(&2, &1, 30);
    assert_eq!(ledger.get_balance(&1), 100);
    assert_eq!(ledger.get_balance(&2), 0);
    assert_eq!(ledger.get_balances(vec![2, 1, 3]), vec![(2, 0), (1, 100), (3, 0)]);
    let mut all = ledger.get_all_balances();
    all.sort();
    assert_eq!(all, vec![(1, 100), (2, 0), (3, 0)]);
}

#[test]
fn accounts_create_ledgers_per_channel() {
    let mut accounts = Accounts::new();
    assert!(accounts.get_or_create(&5).get_all_balances().is_empty());
    accounts.get_or_create_mut(&5).increment_balance(&9, 3);
    assert_eq!(accounts.get_or_create_mut(&5).get_balance(&9), 3);
    assert_eq!(accounts.get_or_create_mut(&6).get_balance(&9), 0);
}

#[test]
fn daily_allowance_once_per_day() {
    assert_eq!(daily_amount(false), 10);
    assert_eq!(daily_amount(true), 20);
    assert_eq!(daily_epoch_at(0), 0);
    assert_eq!(daily_epoch_at(1), 86400);
    assert_eq!(daily_epoch_at(86400 * 3 + 5), 86400 * 4);

    let mut log = DailyLog::new(1000);
    assert!(log.log_user_at(&1, 7, 500));
    assert!(!log.log_user_at(&1, 7, 900));
    assert!(log.log_user_at(&2, 7, 900));
    assert!(log.log_user_at(&1, 8, 1000));
    // past the epoch the log starts over
    assert!(log.log_user_at(&1, 7, 1001));
    assert_eq!(log.epoch(), 86400);
}

#[test]
fn ids_and_rows() {
    assert_eq!(ServerId::from_str("123").unwrap(), ServerId(123));
    assert_eq!(UserId::from_str("x1"), Err(DbError::IdParse(IntErrorKind::InvalidDigit)));
    assert_eq!(UserId::from_str(""), Err(DbError::IdParse(IntErrorKind::Empty)));
    assert_eq!(
        UserId::from_str("18446744073709551616"),
        Err(DbError::IdParse(IntErrorKind::PosOverflow))
    );
    assert_eq!(ServerId(42).to_string(), "42");
    assert_eq!(u64::from(UserId::from(9u64)), 9);

    let account = BankAccount::new(&18446744073709551615, &77, &5);
    assert_eq!(account.server_id(), Ok(18446744073709551615));
    assert_eq!(account.user_id(), Ok(77));
    assert_eq!(account.balance, 5);
    let row = ChannelUser::new(&1, &2, &3);
    assert_eq!((row.server_id(), row.channel_id(), row.user_id()), (Ok(1), Ok(2), Ok(3)));
    let item = InventoryItem::new(&4, &5, &6).unwrap();
    assert_eq!((item.server_id(), item.user_id(), item.item_id), (Ok(4), Ok(5), 6));
}

#[test]
fn bank_rules() {
    assert_eq!(coin_amount(5), Ok(5));
    assert_eq!(coin_amount(1 << 40), Err(DbError::CoinOverflow));
    assert_eq!(transfer_amounts(30), Ok((-30, 30)));
    assert_eq!(check_tip(1, 1), Err(DbError::SelfTip));
    assert_eq!(check_tip(1, 2), Ok(()));
    assert_eq!(
        check_tip_records(1),
        Err(DbError::Unexpected("unexpected number of records affected: 1".to_string()))
    );
    assert_eq!(purchase(10, 4), Ok(6));
    assert_eq!(purchase(3, 4), Err(DbError::InsufficientFunds));
    assert_eq!(check_inventory_insert(0), Err(DbError::RecordExists));
    assert_eq!(check_inventory_insert(1), Ok(()));
    assert_eq!(check_item_deleted(0), Ok(()));
    assert!(keeps_beggar_cup(95));
    assert!(!keeps_beggar_cup(96));
    assert_eq!(adjusted_balance(None, 5), Ok(5));
    assert_eq!(adjusted_balance(Some(None), 5), Ok(5));
    assert_eq!(adjusted_balance(Some(Some(10)), -3), Ok(7));
    assert_eq!(
        adjusted_balance(Some(Some(i32::MAX)), 1),
        Err(AdjustError::CoinOverflow(1))
    );
    let a = BankAccount::new(&1, &2, &50);
    let b = BankAccount::new(&1, &3, &10);
    assert_eq!(check_beg(&a, &a.clone()), Err(DbError::Work("Cannot beg. User has the most coins in the server".to_string())));
    assert_eq!(check_beg(&a, &b), Ok(()));
    assert_eq!(single_account(vec![b.clone()], 1, 3), Ok(b));
    assert_eq!(
        single_account(vec![], 1, 3),
        Err(DbError::NotFound("unable to find user account: #s1 #u3".to_string()))
    );
}

#[test]
fn admin_records() {
    let item = admin::Item {
        id: 3,
        name: Some("cup".to_string()),
        description: Some("for begging".to_string()),
        emoji: Some("🥤".to_string()),
        price: Some(5),
        available: None,
    };
    assert_eq!(item.clone().to_db_item(), Err("availability cannot be null".to_string()));
    let update = item.to_db_update_item();
    assert_eq!(update.id, 3);
    assert_eq!(update.available, None);
    let inv = admin::InventoryItem { server_id: 1, user_id: 2, item_id: 1 << 40 };
    assert_eq!(inv.to_db_item(), Err(DbError::BadId));
    let inv = admin::InventoryItem { server_id: 1, user_id: 2, item_id: 9 };
    assert_eq!(inv.to_db_item().unwrap().item_id, 9);
}

#[test]
fn bot_decisions() {
    assert_eq!(answer_without_bank(&Command::Help), Some(Some(Output::Help)));
    assert_eq!(answer_without_bank(&Command::Ping), Some(Some(Output::Say("hello".to_string()))));
    assert_eq!(answer_without_bank(&Command::NotACommand), Some(None));
    assert_eq!(answer_without_bank(&Command::Shop), None);
    assert_eq!(gamble_stake(Prize::AllCoins, 40), 40);
    assert_eq!(check_bet(Prize::Coins(50), 40), Some(Output::BetTooHigh { amount: 50, player_balance: 40 }));
    assert_eq!(check_bet(Prize::AllCoins, 40), None);
    let won = dice_outcome(4, Prize::Coins(5), 6, 1);
    assert_eq!(
        gamble_settlement(99, 40, &won),
        Ok(Some(CoinTransfer { from_user: 99, to_user: 4, amount: 5 }))
    );
    let lost = dice_outcome(4, Prize::AllCoins, 1, 6);
    assert_eq!(
        gamble_settlement(99, 40, &lost),
        Ok(Some(CoinTransfer { from_user: 4, to_user: 99, amount: 40 }))
    );
    assert_eq!(daily_output(true, 5), Output::DailyResponse);
    assert_eq!(daily_output(false, 5), Output::BadDailyResponse { next_epoch: 5 });
    assert_eq!(
        transfer_output(Err(DbError::InsufficientFunds), 12),
        Ok(Some(Output::Say("You do not have 12 coins.".to_string())))
    );
    let result = TransferResult {
        to_account: BankAccount::new(&1, &2, &30),
        from_account: BankAccount::new(&1, &3, &70),
    };
    assert_eq!(
        transfer_output(Ok(result), 30),
        Ok(Some(Output::TransferSuccess {
            to_user: 2,
            to_balance: 30,
            from_user: 3,
            from_balance: 70,
            amount: 30
        }))
    );
}

#[test]
fn coin_messages() {
    assert_eq!(format_account("bob", 7), "`0007`🪙\tbob\n");
    assert_eq!(format_account("al", -5), "`-005`🪙\tal\n");
    assert_eq!(format_account("cy", 123456), "`123456`🪙\tcy\n");
    let help = help_embed();
    assert_eq!(help.title.as_deref(), Some("What ULTRON can do for you"));
    assert_eq!(help.fields.len(), 2);
    assert!(help.fields[1].value.contains("accumulating Coins.Tip your"));
    let daily = daily_embed(20);
    assert_eq!(daily.description.as_deref(), Some("You now have 20🪙"));
    let transfer = transfer_embed("a", 1, "b", 2, 3);
    assert_eq!(transfer.description.as_deref(), Some("3 coins were transfered."));
    assert_eq!(transfer.fields[0].value, "`0001`🪙\ta\n");
    let too_high = bet_too_high_embed(4, 9);
    assert_eq!(
        too_high.description.as_deref(),
        Some("You haven't enough coins to bet 9🪙. You only have 4🪙")
    );
}

#[test]
fn gamble_messages() {
    let won = dice_outcome(4, Prize::Coins(5), 6, 1);
    let embed = gamble_embed("bob", 45, &won).unwrap();
    assert_eq!(embed.title.as_deref(), Some("Winner!"));
    assert_eq!(embed.colour, Colour::Gold);
    assert_eq!(
        embed.description.as_deref(),
        Some("You have bested chance and earned 5🪙. You now have 45🪙")
    );
    assert_eq!(
        embed.fields[0],
        EmbedField { name: "bob".to_string(), value: "bob rolled a 6".to_string(), inline: true }
    );
    assert_eq!(embed.fields[1].value, "The house rolled a 1");
    let lost = dice_outcome(4, Prize::AllCoins, 1, 6);
    let embed = gamble_embed("bob", 0, &lost).unwrap();
    assert_eq!(embed.description.as_deref(), Some("You risked it all and now you have nothing."));
    let waiting = GambleOutput::DiceRoll {
        player_id: 4,
        prize: Prize::AllCoins,
        house_roll: 1,
        player_roll: 1,
        state: State::Waiting,
    };
    assert_eq!(
        gamble_embed("bob", 0, &waiting),
        Err(BotError::MessageBuild("waiting state not supported for any gamble actions".to_string()))
    );
}

#[test]
fn shop_messages() {
    let cup = Item {
        id: 2,
        name: "Beggar's Cup".to_string(),
        description: "beg for coins".to_string(),
        emoji: "🥤".to_string(),
        price: 15,
        available: 1,
    };
    let shop = shop_embed(&vec![cup.clone()]);
    assert_eq!(shop.fields[0].name, "🥤: Beggar's Cup");
    assert_eq!(shop.fields[0].value, "🪙15 -- beg for coins");
    let inventory = inventory_embed(&vec![cup.clone()]);
    assert_eq!(inventory.fields[0].name, "🥤 Beggar's Cup");
    let bought = item_purchased_embed("bob", &cup);
    assert_eq!(bought.fields[0].name, "bob, a 🥤Beggar's Cup has been added to your inventory");
}

#[test]
fn item_kinds_and_cli() {
    assert_ne!(ItemType::MemberCard, ItemType::BeggarCup);
    let cli = Cli::new(8080, 9090, "secrets.toml".to_string());
    assert_eq!(cli.rust_log, "info");
    assert_eq!(cli.mcp_uri(), "http://localhost:9090");
    let config = cli.chat_agent_config();
    assert_eq!(config.llm_model.as_str(), "llama3.2:latest");
    assert_eq!(startup_message("  host\n", 8080), "coming online, listening from host:8080");
}

#[test]
fn shop_reactions() {
    let cup = Item {
        id: 2,
        name: "Cup".to_string(),
        description: "beg".to_string(),
        emoji: "🥤".to_string(),
        price: 15,
        available: 1,
    };
    let card = Item { id: 1, name: "Card".to_string(), description: "member".to_string(), emoji: "💳".to_string(), price: 50, available: 1 };
    let items = vec![card.clone(), cup.clone()];
    assert_eq!(item_for_emoji(&items, "🥤"), Some(1));
    assert_eq!(item_for_emoji(&items, "🍕"), None);
    assert!(matches!(purchase_reply(Ok(()), &cup, "Bobby", "bob"), Ok(Reply::Embed(_))));
    assert_eq!(
        purchase_reply(Err(DbError::InsufficientFunds), &cup, "Bobby", "bob"),
        Ok(Reply::Say("You cannot afford that, Bobby".to_string()))
    );
    assert_eq!(
        purchase_reply(Err(DbError::RecordExists), &cup, "Bobby", "bob"),
        Ok(Reply::Say("You already have a 🥤Cup, bob".to_string()))
    );
    assert_eq!(
        purchase_reply(Err(DbError::CoinOverflow), &cup, "Bobby", "bob"),
        Err(BotError::Db(DbError::CoinOverflow))
    );
    assert_eq!(fallback_name(Some("bob".to_string()), Some(3)), "bob");
    assert_eq!(fallback_name(None, Some(3)), "3");
    assert_eq!(fallback_name(None, None), "User");
    assert!(handles_message_from(1, 2));
    assert!(!handles_message_from(2, 2));
}

#[test]
fn admin_listings() {
    assert_eq!(admin::account_text(1, 2, -3), "#s1 #u2 $-3");
    assert_eq!(admin::channel_user_text(1, 2, 3), "s#1 c#2 u#3");
    assert_eq!(admin::inventory_text(1, 2, 3), "s#1 u#2 i#3");
    let item = Item { id: 7, name: "Cup".to_string(), description: "beg".to_string(), emoji: "🥤".to_string(), price: 15, available: 2 };
    assert_eq!(admin::item_text(&item), "#7 - 🥤 Cup 15🪙:\navailable: 2\nbeg");
}

#[test]
fn daily_records_and_epochs() {
    assert_eq!(check_daily_records(0), Err(BotError::Unknown("no records changed".to_string())));
    assert_eq!(check_daily_records(1), Ok(true));
    let epoch = daily_epoch();
    assert_eq!(epoch % 86400, 0);
    let mut log = DailyLog::starting_now();
    assert!(log.log_user(&1, 2));
    assert!(!log.log_user(&1, 2));
}

#[test]
fn commands_run_against_the_bank() {
    assert!(matches!(start(1, 2, 3, Command::Help), Step::Done(Ok(Some(Output::Help)))));
    assert!(matches!(start(1, 2, 3, Command::NotACommand), Step::Done(Ok(None))));
    match start(1, 2, 3, Command::CopyPasta { text: "pasta".to_string() }) {
        Step::Done(Ok(Some(Output::Say(text)))) => assert_eq!(text, "pasta"),
        other => panic!("unexpected step {:?}", other),
    }

    let step = start(1, 2, 3, Command::Transfer { from_user: 3, to_user: 4, amount: 5 });
    let Step::Ask(request, state) = step else { panic!("a transfer asks the bank") };
    assert_eq!(
        request,
        BankRequest::Transfer { server_id: 1, from_user: 3, to_user: 4, amount: 5 }
    );
    assert_eq!(state, CommandState::AwaitTransfer(5));
    match resume(99, 1, state, BankAnswer::Transfer(Err(DbError::InsufficientFunds))) {
        Step::Done(Ok(Some(Output::Say(text)))) => assert_eq!(text, "You do not have 5 coins."),
        other => panic!("unexpected step {:?}", other),
    }

    let gamble = Gamble::new(3, Prize::Coins(50), Game::DiceRoll(10));
    let Step::Ask(request, state) = start(1, 2, 3, Command::Gamble(gamble)) else {
        panic!("a gamble asks for the balance")
    };
    assert_eq!(request, BankRequest::UserBalance { server_id: 1, user_id: 3 });
    match resume(99, 1, state.clone(), BankAnswer::Balance(Ok(10))) {
        Step::Done(Ok(Some(Output::BetTooHigh { amount, player_balance }))) => {
            assert_eq!((amount, player_balance), (50, 10));
        }
        other => panic!("unexpected step {:?}", other),
    }
    match resume(99, 1, state, BankAnswer::Balance(Ok(100))) {
        Step::Done(Ok(Some(Output::Gamble(GambleOutput::DiceRoll { state, player_roll, house_roll, .. })))) => {
            assert_eq!(state, State::Draw);
            assert_eq!(player_roll, house_roll);
        }
        Step::Ask(BankRequest::Transfer { from_user, to_user, amount, .. }, CommandState::AwaitSettlement(out)) => {
            assert_eq!(amount, 50);
            let GambleOutput::DiceRoll { state, .. } = out;
            match state {
                State::Win => assert_eq!((from_user, to_user), (99, 3)),
                State::Lose => assert_eq!((from_user, to_user), (3, 99)),
                _ => panic!("a settled gamble is won or lost"),
            }
            match resume(99, 1, CommandState::AwaitSettlement(out), BankAnswer::Done(Ok(()))) {
                Step::Done(Ok(Some(Output::Gamble(o)))) => assert_eq!(o, out),
                other => panic!("unexpected step {:?}", other),
            }
        }
        other => panic!("unexpected step {:?}", other),
    }

    let Step::Ask(_, state) = start(1, 2, 3, Command::Daily { server_id: 1, user_id: 3 }) else {
        panic!("the daily allowance asks the bank")
    };
    match resume(99, 1, state.clone(), BankAnswer::Daily(Ok(false))) {
        Step::Done(Ok(Some(Output::BadDailyResponse { next_epoch }))) => assert_eq!(next_epoch % 86400, 0),
        other => panic!("unexpected step {:?}", other),
    }
    assert!(matches!(
        resume(99, 1, state, BankAnswer::Daily(Ok(true))),
        Step::Done(Ok(Some(Output::DailyResponse)))
    ));

    match resume(99, 1, CommandState::AwaitTip, BankAnswer::Daily(Ok(true))) {
        Step::Done(Err(BotError::Unexpected(m))) => {
            assert_eq!(m, "the bank's answer does not fit the command")
        }
        other => panic!("unexpected step {:?}", other),
    }
    assert!(matches!(
        resume(99, 1, CommandState::AwaitTip, BankAnswer::Done(Err(BotError::Db(DbError::SelfTip)))),
        Step::Done(Err(BotError::Db(DbError::SelfTip)))
    ));
}

#[test]
fn adjustments_and_tips_undo() {
    let up = adjusted_balance(Some(Some(7)), 5).unwrap();
    assert_eq!(up, 12);
    assert_eq!(adjusted_balance(Some(Some(up)), -5), Ok(7));
    assert_eq!(adjusted_balance(Some(None), -5), Ok(-5));

    let mut ledger = Ledger::new();
    ledger.increment_balance(&1, 4);
    ledger.increment_balance(&1, 1);
    ledger.increment_balance(&2, 2);
    ledger.increment_balance(&1, -1);
    ledger.increment_balance(&2, -2);
    assert_eq!(ledger.get_balance(&1), 4);
    assert_eq!(ledger.get_balance(&2), 0);
}

#[test]
fn bad_daily_shows_next_epoch_in_central_time() {
    let at_epoch = bad_daily_embed(0);
    assert_eq!(at_epoch.colour, Colour::DarkRed);
    assert_eq!(at_epoch.title, None);
    assert_eq!(at_epoch.description.as_deref(), Some("You've gotten your coins for the day"));
    assert_eq!(
        at_epoch.fields,
        vec![EmbedField {
            name: "next epoch".to_string(),
            value: "Wed 18:00:00 CST".to_string(),
            inline: true
        }]
    );
    assert_eq!(bad_daily_embed(345_600).fields[0].value, "Sun 18:00:00 CST");
    assert_eq!(bad_daily_embed(1_700_000_000).fields[0].value, "Tue 16:13:20 CST");
}

#[test]
fn replies_for_every_answer() {
    assert_eq!(
        reply_for(Output::Say("hi".to_string()), 0, "p", "f", "t"),
        Ok(Reply::Say("hi".to_string()))
    );
    assert_eq!(reply_for(Output::Help, 0, "p", "f", "t"), Ok(Reply::Embed(help_embed())));
    assert_eq!(
        reply_for(Output::DailyResponse, 30, "p", "f", "t"),
        Ok(Reply::Embed(daily_embed(30)))
    );
    assert_eq!(
        reply_for(Output::BadDailyResponse { next_epoch: 0 }, 30, "p", "f", "t"),
        Ok(Reply::Embed(bad_daily_embed(0)))
    );
    let transfer = Output::TransferSuccess {
        to_user: 2,
        to_balance: 12,
        from_user: 1,
        from_balance: 8,
        amount: 2,
    };
    assert_eq!(
        reply_for(transfer, 0, "p", "al", "bo"),
        Ok(Reply::Embed(transfer_embed("al", 8, "bo", 12, 2)))
    );
    let won = dice_outcome(4, Prize::Coins(5), 6, 1);
    assert_eq!(
        reply_for(Output::Gamble(won.clone()), 45, "bob", "f", "t"),
        Ok(Reply::Embed(gamble_embed("bob", 45, &won).unwrap()))
    );
    let waiting = GambleOutput::DiceRoll {
        player_id: 4,
        prize: Prize::AllCoins,
        house_roll: 1,
        player_roll: 1,
        state: State::Waiting,
    };
    assert_eq!(
        reply_for(Output::Gamble(waiting), 0, "bob", "f", "t"),
        Err(BotError::MessageBuild("waiting state not supported for any gamble actions".to_string()))
    );
    assert_eq!(
        reply_for(Output::BetTooHigh { amount: 9, player_balance: 4 }, 0, "p", "f", "t"),
        Ok(Reply::Embed(bet_too_high_embed(4, 9)))
    );
    assert_eq!(
        reply_for(Output::Shop(vec![]), 0, "p", "f", "t"),
        Ok(Reply::Embed(shop_embed(&vec![])))
    );
    assert_eq!(
        reply_for(Output::Inventory(vec![]), 0, "p", "f", "t"),
        Ok(Reply::Embed(inventory_embed(&vec![])))
    );
    assert_eq!(
        reply_for(
            Output::CoinBalances(vec![("al".to_string(), 3), ("bo".to_string(), 40)]),
            0,
            "p",
            "f",
            "t"
        ),
        Ok(Reply::Say("`0003`🪙\tal\n`0040`🪙\tbo\n".to_string()))
    );
}

#[test]
fn admin_listings_of_records() {
    assert_eq!(admin::accounts_listing(&vec![]), vec!["no accounts returned".to_string()]);
    let accounts = vec![
        BankAccount::from_columns("1".to_string(), "2".to_string(), 30),
        BankAccount::from_columns("4".to_string(), "5".to_string(), -6),
    ];
    assert_eq!(
        admin::accounts_listing(&accounts),
        vec!["#s1 #u2 $30".to_string(), "#s4 #u5 $-6".to_string()]
    );
    assert_eq!(admin::channel_users_listing(&vec![]), vec!["no users retrieved".to_string()]);
    let users = vec![ChannelUser::from_columns("1".to_string(), "2".to_string(), "3".to_string())];
    assert_eq!(admin::channel_users_listing(&users), vec!["s#1 c#2 u#3".to_string()]);
    assert_eq!(
        admin::inventory_listing(&vec![]),
        vec!["no inventory items retrieved".to_string()]
    );
    let owned = vec![InventoryItem::from_columns("8".to_string(), "9".to_string(), 1)];
    assert_eq!(admin::inventory_listing(&owned), vec!["s#8 u#9 i#1".to_string()]);
    assert_eq!(admin::items_listing(&vec![]), vec!["no items retrieved".to_string()]);
    let item = Item {
        id: 7,
        name: "Cup".to_string(),
        description: "beg".to_string(),
        emoji: "🥤".to_string(),
        price: 15,
        available: 2,
    };
    assert_eq!(
        admin::items_listing(&vec![item]),
        vec!["#7 - 🥤 Cup 15🪙:\navailable: 2\nbeg".to_string()]
    );
}

#[test]
fn record_counts_of_transfers_and_items() {
    assert_eq!(check_transfer_records(2), Ok(()));
    assert_eq!(
        check_transfer_records(1),
        Err(DbError::Unexpected("wrong number of changed records: 1".to_string()))
    );
    assert_eq!(check_item_created(1), Ok(()));
    assert_eq!(check_item_created(0), Err(DbError::RecordExists));
    assert_eq!(check_item_updated(1), Ok(()));
    assert_eq!(check_item_updated(0), Err(DbError::NotFound("item not found".to_string())));
}

#[test]
fn shop_actions_on_reactions() {
    let card = Item { id: 1, name: "Card".to_string(), description: "member".to_string(), emoji: "💳".to_string(), price: 50, available: 1 };
    let cup = Item { id: 2, name: "Cup".to_string(), description: "beg".to_string(), emoji: "🥤".to_string(), price: 15, available: 1 };
    let items = vec![card, cup];
    assert_eq!(shop_action(true, &items, "🍕", Some(1), Some(2)), ShopAction::Ignore);
    assert_eq!(shop_action(false, &items, "🍕", Some(1), Some(2)), ShopAction::Ignore);
    assert_eq!(
        shop_action(false, &items, "🥤", Some(1), Some(2)),
        ShopAction::Refuse("No refunds.".to_string())
    );
    assert_eq!(
        shop_action(true, &items, "🥤", Some(10), Some(20)),
        ShopAction::Buy {
            item: 1,
            record: InventoryItem::from_columns("10".to_string(), "20".to_string(), 2)
        }
    );
    assert_eq!(
        shop_action(true, &items, "🥤", None, Some(20)),
        ShopAction::Fail(BotError::Unknown("unable to get server id".to_string()))
    );
    assert_eq!(
        shop_action(true, &items, "💳", Some(10), None),
        ShopAction::Fail(BotError::Unknown("unable to get user id".to_string()))
    );
}

#[test]
fn buyers_are_named_by_their_nicknames() {
    assert_eq!(buyer_nick(Some(1), true, Some("Bobby".to_string()), "bob"), "Bobby");
    assert_eq!(buyer_nick(Some(1), true, None, "bob"), "bob");
    assert_eq!(buyer_nick(Some(1), false, Some("Bobby".to_string()), "bob"), "User");
    assert_eq!(buyer_nick(None, true, Some("Bobby".to_string()), "bob"), "User");
}

#[test]
fn tips_untips_and_transfers_on_stored_balances() {
    let tipper = adjusted_balance(Some(Some(10)), 1).unwrap();
    let tipped = adjusted_balance(Some(Some(20)), 2).unwrap();
    assert_eq!((tipper, tipped), (11, 22));
    assert_eq!(adjusted_balance(Some(Some(tipper)), -1), Ok(10));
    assert_eq!(adjusted_balance(Some(Some(tipped)), -2), Ok(20));
    let sender = adjusted_balance(Some(Some(30)), -10).unwrap();
    let receiver = adjusted_balance(Some(Some(5)), 10).unwrap();
    assert_eq!((sender, receiver), (20, 15));
    assert_eq!(sender + receiver, 30 + 5);
    assert_eq!(adjusted_balance(Some(Some(i32::MAX)), 1), Err(AdjustError::CoinOverflow(1)));
    assert_eq!(
        adjusted_balance(None, 1 << 40),
        Err(AdjustError::CoinOverflow(1 << 40))
    );
}

/// Stored balances of accounts, as a test database holds them.
fn stored_balances() -> Vec<Option<i32>> {
    vec![Some(12), Some(0), Some(-3), None, Some(250)]
}

#[test]
fn adjustment_tests() {
    for balance in stored_balances() {
        for amount in [5i64, 10, 100, 87] {
            let old = balance.unwrap_or(0) as i64;
            let raised = adjusted_balance(Some(balance), amount).expect("the balance fits");
            assert_eq!(raised as i64, old + amount);
            let lowered = adjusted_balance(Some(Some(raised)), -amount).expect("the balance fits");
            assert_eq!(lowered as i64, old);
        }
    }
}

#[test]
fn tip_test() {
    let balances = stored_balances();
    let account0 = balances[0];
    let account1 = balances[1];
    let tipped0 = adjusted_balance(Some(account0), 1).expect("unable to perform tip");
    let tipped1 = adjusted_balance(Some(account1), 2).expect("unable to perform tip");
    assert_eq!(account0.unwrap() + 1, tipped0);
    assert_eq!(account1.unwrap() + 2, tipped1);
    let untipped0 = adjusted_balance(Some(Some(tipped0)), -1).expect("unable to perform untip");
    let untipped1 = adjusted_balance(Some(Some(tipped1)), -2).expect("unable to perform untip");
    assert_eq!(account0.unwrap(), untipped0);
    assert_eq!(account1.unwrap(), untipped1);
}

#[test]
fn transfer_test() {
    let balances = stored_balances();
    let account0: i64 = balances[0].expect("account0 balance was null").into();
    let account1: i64 = balances[4].expect("account1 balance was null").into();
    let transfer_amount = 10;
    let result0 = adjusted_balance(Some(balances[0]), -transfer_amount).expect("unable to transfer coins");
    let result1 = adjusted_balance(Some(balances[4]), transfer_amount).expect("unable to transfer coins");
    assert_eq!(account0 - transfer_amount, result0 as i64);
    assert_eq!(account1 + transfer_amount, result1 as i64);
}

#[test]
fn admin_reports_of_changes() {
    assert_eq!(admin::balance_created_text(1, 2, 30), "balance created: #1 #2 $30");
    assert_eq!(admin::balance_created_text(1, 2, -4), "balance created: #1 #2 $-4");
    assert_eq!(admin::user_inserted_text(7, 8, 9), "user inserted: #s7 #c8 #u9");
    assert_eq!(admin::balance_updated_text(1, 55), "updated 1 record to $55");
}

#[test]
fn ledger_total_stays_through_transfers() {
    let mut ledger = Ledger::new();
    ledger.increment_balance(&1, 50);
    ledger.increment_balance(&2, 7);
    let total = |l: &Ledger| l.get_all_balances().iter().map(|(_, b)| *b).sum::<i64>();
    assert_eq!(total(&ledger), 57);
    ledger.transfer(&1, &3, 20);
    ledger.transfer(&2, &1, 9);
    assert_eq!(total(&ledger), 57);
    assert_eq!(ledger.get_balance(&3), 20);
    assert_eq!(ledger.get_balance(&2), -2);
}

#[test]
fn daily_epochs_before_1970_and_grants() {
    assert_eq!(daily_epoch_at(-1), 0);
    assert_eq!(daily_epoch_at(-86_400), -86_400);
    assert_eq!(daily_epoch_at(-86_401), -86_400);
    assert_eq!(daily_epoch_at(-100_000), -86_400);
    assert_eq!(ultron::coins::daily::daily_grant(true, false), Some(10));
    assert_eq!(ultron::coins::daily::daily_grant(true, true), Some(20));
    assert_eq!(ultron::coins::daily::daily_grant(false, true), None);
    let mut log = DailyLog::new(1_000);
    let first = log.log_user_at(&1, 2, 500);
    let second = log.log_user_at(&1, 2, 900);
    assert_eq!(ultron::coins::daily::daily_grant(first, false), Some(10));
    assert_eq!(ultron::coins::daily::daily_grant(second, false), None);
}
