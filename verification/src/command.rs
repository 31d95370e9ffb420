//! Command classes, their four-character verbs, and the text of commands
//! and replies.

use vstd::prelude::*;

use crate::text::same_text;

verus! {

/// The class of a command or of a reply.
#[derive(Clone, Copy, Debug, PartialEq, Eq, Structural)]
pub enum CommandType {
    /// A reply without the framing prefix; it has no verb.
    Generic,
    Power,
    Input,
    AvMute,
    ErrorStatus,
    Lamp,
    InputList,
    Name,
    Manufacturer,
    ProductName,
    Information,
    Class,
}

impl CommandType {
    /// The verb of a class: the class table read from class to verb.
    pub open spec fn spec_verb(self) -> Option<Seq<char>> {
        match self {
            CommandType::Generic => None,
            CommandType::Power => Some("POWR"@),
            CommandType::Input => Some("INPT"@),
            CommandType::AvMute => Some("AVMT"@),
            CommandType::ErrorStatus => Some("ERST"@),
            CommandType::Lamp => Some("LAMP"@),
            CommandType::InputList => Some("INST"@),
            CommandType::Name => Some("NAME"@),
            CommandType::Manufacturer => Some("INF1"@),
            CommandType::ProductName => Some("INF2"@),
            CommandType::Information => Some("INFO"@),
            CommandType::Class => Some("CLSS"@),
        }
    }

    /// The class of a verb: the class table read from verb to class.
    pub open spec fn spec_from_verb(token: Seq<char>) -> Option<CommandType> {
        if token == "POWR"@ {
            Some(CommandType::Power)
        } else if token == "INPT"@ {
            Some(CommandType::Input)
        } else if token == "AVMT"@ {
            Some(CommandType::AvMute)
        } else if token == "ERST"@ {
            Some(CommandType::ErrorStatus)
        } else if token == "LAMP"@ {
            Some(CommandType::Lamp)
        } else if token == "INST"@ {
            Some(CommandType::InputList)
        } else if token == "NAME"@ {
            Some(CommandType::Name)
        } else if token == "INF1"@ {
            Some(CommandType::Manufacturer)
        } else if token == "INF2"@ {
            Some(CommandType::ProductName)
        } else if token == "INFO"@ {
            Some(CommandType::Information)
        } else if token == "CLSS"@ {
            Some(CommandType::Class)
        } else {
            None
        }
    }

    /// The verb that names this class on the wire; a generic reply has none.
    pub fn verb(self) -> (verb: Option<&'static str>)
        ensures
            verb is Some <==> self != CommandType::Generic,
            verb matches Some(v) ==> self.spec_verb() == Some(v@),
    {
        match self {
            CommandType::Generic => None,
            CommandType::Power => Some("POWR"),
            CommandType::Input => Some("INPT"),
            CommandType::AvMute => Some("AVMT"),
            CommandType::ErrorStatus => Some("ERST"),
            CommandType::Lamp => Some("LAMP"),
            CommandType::InputList => Some("INST"),
            CommandType::Name => Some("NAME"),
            CommandType::Manufacturer => Some("INF1"),
            CommandType::ProductName => Some("INF2"),
            CommandType::Information => Some("INFO"),
            CommandType::Class => Some("CLSS"),
        }
    }

    /// Looks a class token up in the class table.
    pub fn from_verb(token: &str) -> (class: Option<CommandType>)
        ensures
            class == Self::spec_from_verb(token@),
    {
        if same_text(token, "POWR") {
            Some(CommandType::Power)
        } else if same_text(token, "INPT") {
            Some(CommandType::Input)
        } else if same_text(token, "AVMT") {
            Some(CommandType::AvMute)
        } else if same_text(token, "ERST") {
            Some(CommandType::ErrorStatus)
        } else if same_text(token, "LAMP") {
            Some(CommandType::Lamp)
        } else if same_text(token, "INST") {
            Some(CommandType::InputList)
        } else if same_text(token, "NAME") {
            Some(CommandType::Name)
        } else if same_text(token, "INF1") {
            Some(CommandType::Manufacturer)
        } else if same_text(token, "INF2") {
            Some(CommandType::ProductName)
        } else if same_text(token, "INFO") {
            Some(CommandType::Information)
        } else if same_text(token, "CLSS") {
            Some(CommandType::Class)
        } else {
            None
        }
    }
}

/// Makes the contents of the eleven verbs known to the solver.
pub proof fn reveal_verbs()
    ensures
        "POWR"@ == seq!['P', 'O', 'W', 'R'],
        "INPT"@ == seq!['I', 'N', 'P', 'T'],
        "AVMT"@ == seq!['A', 'V', 'M', 'T'],
        "ERST"@ == seq!['E', 'R', 'S', 'T'],
        "LAMP"@ == seq!['L', 'A', 'M', 'P'],
        "INST"@ == seq!['I', 'N', 'S', 'T'],
        "NAME"@ == seq!['N', 'A', 'M', 'E'],
        "INF1"@ == seq!['I', 'N', 'F', '1'],
        "INF2"@ == seq!['I', 'N', 'F', '2'],
        "INFO"@ == seq!['I', 'N', 'F', 'O'],
        "CLSS"@ == seq!['C', 'L', 'S', 'S'],
{
    reveal_strlit("POWR");
    reveal_strlit("INPT");
    reveal_strlit("AVMT");
    reveal_strlit("ERST");
    reveal_strlit("LAMP");
    reveal_strlit("INST");
    reveal_strlit("NAME");
    reveal_strlit("INF1");
    reveal_strlit("INF2");
    reveal_strlit("INFO");
    reveal_strlit("CLSS");
    assert("POWR"@ =~= seq!['P', 'O', 'W', 'R']);
    assert("INPT"@ =~= seq!['I', 'N', 'P', 'T']);
    assert("AVMT"@ =~= seq!['A', 'V', 'M', 'T']);
    assert("ERST"@ =~= seq!['E', 'R', 'S', 'T']);
    assert("LAMP"@ =~= seq!['L', 'A', 'M', 'P']);
    assert("INST"@ =~= seq!['I', 'N', 'S', 'T']);
    assert("NAME"@ =~= seq!['N', 'A', 'M', 'E']);
    assert("INF1"@ =~= seq!['I', 'N', 'F', '1']);
    assert("INF2"@ =~= seq!['I', 'N', 'F', '2']);
    assert("INFO"@ =~= seq!['I', 'N', 'F', 'O']);
    assert("CLSS"@ =~= seq!['C', 'L', 'S', 'S']);
}

/// The class table is a bijection between the eleven verbs and the eleven
/// classes that have one.
pub proof fn lemma_class_table(class: CommandType, token: Seq<char>)
    ensures
        class.spec_verb() matches Some(verb) ==> CommandType::spec_from_verb(verb) == Some(class),
        CommandType::spec_from_verb(token) == Some(class) ==> class.spec_verb() == Some(token),
        class.spec_verb() is Some <==> class != CommandType::Generic,
        CommandType::spec_from_verb(token) != Some(CommandType::Generic),
{
    reveal_verbs();
}

/// The text of a command: the verb, one space, the parameter.
pub open spec fn spec_encode_command(verb: Seq<char>, parameter: Seq<char>) -> Seq<char> {
    verb + seq![' '] + parameter
}

/// Renders a command. A parameter of `"?"` makes it a query.
pub fn encode_command(verb: &str, parameter: &str) -> (command: String)
    ensures
        command@ == spec_encode_command(verb@, parameter@),
{
    proof {
        reveal_strlit(" ");
        assert(" "@ =~= seq![' ']);
    }
    let mut command = String::new();
    command.append(verb);
    command.append(" ");
    command.append(parameter);
    assert(command@ =~= spec_encode_command(verb@, parameter@));
    command
}

} // verus!
