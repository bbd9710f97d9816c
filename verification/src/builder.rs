//! A builder for editing an existing application command.

use vstd::prelude::*;
use crate::model::Permissions;

verus! {

/// An installation context an application command can be available in.
#[derive(Clone, Copy, Debug, PartialEq, Eq, Structural)]
pub enum InstallationContext {
    Guild,
    User,
}

/// An interaction context an application command can be used in.
#[derive(Clone, Copy, Debug, PartialEq, Eq, Structural)]
pub enum InteractionContext {
    Guild,
    BotDm,
    PrivateChannel,
}

/// One option of an application command, reduced to the fields this builder
/// carries.
#[derive(Clone, Debug)]
pub struct CreateCommandOption {
    /// The wire value of the option kind.
    pub kind: u8,
    pub name: String,
    pub description: String,
}

impl CreateCommandOption {
    pub fn new(kind: u8, name: String, description: String) -> (r: CreateCommandOption)
        ensures
            r.kind == kind,
            r.name@ == name@,
            r.description@ == description@,
    {
        CreateCommandOption { kind, name, description }
    }
}

/// The map a sequence of key-value entries denotes, later entries overriding
/// earlier ones.
pub open spec fn entries_map(entries: Seq<(String, String)>) -> Map<Seq<char>, Seq<char>>
    decreases entries.len(),
{
    if entries.len() == 0 {
        Map::<Seq<char>, Seq<char>>::empty()
    } else {
        entries_map(entries.drop_last()).insert(entries.last().0@, entries.last().1@)
    }
}

/// The abstract state of an [`EditCommand`] request.
pub struct EditCommandV {
    pub name: Option<Seq<char>>,
    pub name_localizations: Map<Seq<char>, Seq<char>>,
    pub description: Option<Seq<char>>,
    pub description_localizations: Map<Seq<char>, Seq<char>>,
    pub options: Seq<CreateCommandOption>,
    pub default_member_permissions: Option<Permissions>,
    pub dm_permission: Option<bool>,
    pub integration_types: Option<Seq<InstallationContext>>,
    pub contexts: Option<Seq<InteractionContext>>,
    pub nsfw: bool,
}

/// A builder for editing an existing application command: every field is
/// optional, and only the fields that were set are sent.
#[derive(Clone, Debug)]
pub struct EditCommand {
    name: Option<String>,
    name_localizations: Vec<(String, String)>,
    description: Option<String>,
    description_localizations: Vec<(String, String)>,
    options: Vec<CreateCommandOption>,
    default_member_permissions: Option<Permissions>,
    dm_permission: Option<bool>,
    integration_types: Option<Vec<InstallationContext>>,
    contexts: Option<Vec<InteractionContext>>,
    nsfw: bool,
}

impl View for EditCommand {
    type V = EditCommandV;

    closed spec fn view(&self) -> EditCommandV {
        EditCommandV {
            name: match self.name {
                Some(n) => Some(n@),
                None => None,
            },
            name_localizations: entries_map(self.name_localizations@),
            description: match self.description {
                Some(d) => Some(d@),
                None => None,
            },
            description_localizations: entries_map(self.description_localizations@),
            options: self.options@,
            default_member_permissions: self.default_member_permissions,
            dm_permission: self.dm_permission,
            integration_types: match self.integration_types {
                Some(v) => Some(v@),
                None => None,
            },
            contexts: match self.contexts {
                Some(v) => Some(v@),
                None => None,
            },
            nsfw: self.nsfw,
        }
    }
}

/// The state of a freshly created builder: nothing set.
pub open spec fn edit_command_empty() -> EditCommandV {
    EditCommandV {
        name: None,
        name_localizations: Map::<Seq<char>, Seq<char>>::empty(),
        description: None,
        description_localizations: Map::<Seq<char>, Seq<char>>::empty(),
        options: Seq::<CreateCommandOption>::empty(),
        default_member_permissions: None,
        dm_permission: None,
        integration_types: None,
        contexts: None,
        nsfw: false,
    }
}

impl Default for EditCommand {
    /// A builder with nothing set.
    fn default() -> (r: EditCommand)
        ensures
            r@ == edit_command_empty(),
    {
        let r = EditCommand {
            name: None,
            name_localizations: Vec::new(),
            description: None,
            description_localizations: Vec::new(),
            options: Vec::new(),
            default_member_permissions: None,
            dm_permission: None,
            integration_types: None,
            contexts: None,
            nsfw: false,
        };
        proof {
            assert(r@.options =~= edit_command_empty().options);
            assert(r@.name_localizations =~= edit_command_empty().name_localizations);
            assert(r@.description_localizations =~= edit_command_empty().description_localizations);
        }
        r
    }
}

impl EditCommand {
    /// Equivalent to [`Self::default`].
    pub fn new() -> (r: EditCommand)
        ensures
            r@ == edit_command_empty(),
    {
        Self::default()
    }

    /// Specifies the name of the application command.
    pub fn name(self, name: &str) -> (r: EditCommand)
        ensures
            r@ == (EditCommandV { name: Some(name@), ..self@ }),
    {
        EditCommand { name: Some(name.to_owned()), ..self }
    }

    /// Specifies a localized name of the application command for one locale.
    pub fn name_localized(self, locale: &str, name: &str) -> (r: EditCommand)
        ensures
            r@ == (EditCommandV {
                name_localizations: self@.name_localizations.insert(locale@, name@),
                ..self@
            }),
    {
        let mut entries = self.name_localizations;
        let ghost e0 = entries@;
        entries.push((locale.to_owned(), name.to_owned()));
        proof {
            assert(entries@.drop_last() =~= e0);
        }
        EditCommand { name_localizations: entries, ..self }
    }

    /// Specifies the default permissions required to execute the command.
    pub fn default_member_permissions(self, permissions: Permissions) -> (r: EditCommand)
        ensures
            r@ == (EditCommandV { default_member_permissions: Some(permissions), ..self@ }),
    {
        EditCommand { default_member_permissions: Some(permissions), ..self }
    }

    /// Specifies whether the command is available in direct messages.
    pub fn dm_permission(self, enabled: bool) -> (r: EditCommand)
        ensures
            r@ == (EditCommandV { dm_permission: Some(enabled), ..self@ }),
    {
        EditCommand { dm_permission: Some(enabled), ..self }
    }

    /// Specifies the description of the application command.
    pub fn description(self, description: &str) -> (r: EditCommand)
        ensures
            r@ == (EditCommandV { description: Some(description@), ..self@ }),
    {
        EditCommand { description: Some(description.to_owned()), ..self }
    }

    /// Specifies a localized description of the application command for one
    /// locale.
    pub fn description_localized(self, locale: &str, description: &str) -> (r: EditCommand)
        ensures
            r@ == (EditCommandV {
                description_localizations: self@.description_localizations.insert(
                    locale@,
                    description@,
                ),
                ..self@
            }),
    {
        let mut entries = self.description_localizations;
        let ghost e0 = entries@;
        entries.push((locale.to_owned(), description.to_owned()));
        proof {
            assert(entries@.drop_last() =~= e0);
        }
        EditCommand { description_localizations: entries, ..self }
    }

    /// Adds an application command option for the application command.
    pub fn add_option(self, option: CreateCommandOption) -> (r: EditCommand)
        ensures
            r@ == (EditCommandV { options: self@.options.push(option), ..self@ }),
    {
        let mut options = self.options;
        options.push(option);
        EditCommand { options, ..self }
    }

    /// Sets all the application command options for the application command.
    pub fn set_options(self, options: Vec<CreateCommandOption>) -> (r: EditCommand)
        ensures
            r@ == (EditCommandV { options: options@, ..self@ }),
    {
        EditCommand { options, ..self }
    }

    /// Adds an installation context that this application command can be
    /// used in.
    pub fn add_integration_type(self, integration_type: InstallationContext) -> (r: EditCommand)
        ensures
            r@ == (EditCommandV {
                integration_types: Some(
                    (match self@.integration_types {
                        Some(v) => v,
                        None => Seq::<InstallationContext>::empty(),
                    }).push(integration_type),
                ),
                ..self@
            }),
    {
        let mut v = match self.integration_types {
            Some(v) => v,
            None => Vec::new(),
        };
        v.push(integration_type);
        proof {
            assert(v@ =~= (match self@.integration_types {
                Some(w) => w,
                None => Seq::<InstallationContext>::empty(),
            }).push(integration_type));
        }
        EditCommand { integration_types: Some(v), ..self }
    }

    /// Sets the installation contexts that this application command can be
    /// used in.
    pub fn integration_types(self, integration_types: Vec<InstallationContext>) -> (r:
        EditCommand)
        ensures
            r@ == (EditCommandV { integration_types: Some(integration_types@), ..self@ }),
    {
        EditCommand { integration_types: Some(integration_types), ..self }
    }

    /// Adds an interaction context that this application command can be used
    /// in.
    pub fn add_context(self, context: InteractionContext) -> (r: EditCommand)
        ensures
            r@ == (EditCommandV {
                contexts: Some(
                    (match self@.contexts {
                        Some(v) => v,
                        None => Seq::<InteractionContext>::empty(),
                    }).push(context),
                ),
                ..self@
            }),
    {
        let mut v = match self.contexts {
            Some(v) => v,
            None => Vec::new(),
        };
        v.push(context);
        proof {
            assert(v@ =~= (match self@.contexts {
                Some(w) => w,
                None => Seq::<InteractionContext>::empty(),
            }).push(context));
        }
        EditCommand { contexts: Some(v), ..self }
    }

    /// Sets the interaction contexts that this application command can be
    /// used in.
    pub fn contexts(self, contexts: Vec<InteractionContext>) -> (r: EditCommand)
        ensures
            r@ == (EditCommandV { contexts: Some(contexts@), ..self@ }),
    {
        EditCommand { contexts: Some(contexts), ..self }
    }

    /// Marks whether this command is age-restricted.
    pub fn nsfw(self, nsfw: bool) -> (r: EditCommand)
        ensures
            r@ == (EditCommandV { nsfw, ..self@ }),
    {
        EditCommand { nsfw, ..self }
    }
}

} // verus!
