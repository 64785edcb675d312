//! The configuration server: which configuration message an opcode
//! introduces, and how its parameters are read.
use vstd::prelude::*;
use crate::buffer::{appended, ByteBuf};
use crate::model::foundation::configuration::app_key::{config_appkey_add, config_appkey_get, AppKeyMessage};
use crate::model::foundation::configuration::beacon::BeaconMessage;
use crate::model::foundation::configuration::composition_data::{config_composition_data_get, CompositionDataMessage};
use crate::model::foundation::configuration::default_ttl::{
    config_default_ttl_get, config_default_ttl_set, DefaultTTLMessage,
};
use crate::model::foundation::configuration::model_app::{ModelAppMessage, ModelAppPayload};
use crate::model::foundation::configuration::model_publication::{
    config_model_publication_set, ModelPublicationMessage, ModelPublicationSetMessage,
};
use crate::model::foundation::configuration::model_subscription::{
    ModelSubscriptionAddMessage, ModelSubscriptionMessage,
};
use crate::model::foundation::configuration::node_reset::{config_node_reset, NodeResetMessage};
use crate::model::{Message, Model, ModelIdentifier};
use crate::pdu::access::{
    config_beacon_get, config_beacon_set, config_model_app_bind, config_model_app_unbind,
    config_model_publication_virtual_address_set, config_model_subscription_add,
    config_model_subscription_virtual_address_add, Opcode,
};
use crate::pdu::ParseError;
use crate::InsufficientBuffer;

verus! {

/// The identifier of the configuration server model.
#[verifier::allow_in_spec]
pub fn configuration_server() -> ModelIdentifier
    returns
        ModelIdentifier::SIG(0x0000),
{
    ModelIdentifier::SIG(0x0000)
}

/// The identifier of the configuration client model.
#[verifier::allow_in_spec]
pub fn configuration_client() -> ModelIdentifier
    returns
        ModelIdentifier::SIG(0x0001),
{
    ModelIdentifier::SIG(0x0001)
}

/// A message of the configuration models.
pub enum ConfigurationMessage {
    Beacon(BeaconMessage),
    DefaultTTL(DefaultTTLMessage),
    NodeReset(NodeResetMessage),
    CompositionData(CompositionDataMessage),
    AppKey(AppKeyMessage),
    ModelApp(ModelAppMessage),
    ModelPublication(ModelPublicationMessage),
    ModelSubscription(ModelSubscriptionMessage),
}

impl Message for ConfigurationMessage {
    open spec fn spec_opcode(&self) -> Opcode {
        match self {
            ConfigurationMessage::Beacon(inner) => inner.spec_opcode(),
            ConfigurationMessage::DefaultTTL(inner) => inner.spec_opcode(),
            ConfigurationMessage::NodeReset(inner) => inner.spec_opcode(),
            ConfigurationMessage::CompositionData(inner) => inner.spec_opcode(),
            ConfigurationMessage::AppKey(inner) => inner.spec_opcode(),
            ConfigurationMessage::ModelApp(inner) => inner.spec_opcode(),
            ConfigurationMessage::ModelPublication(inner) => inner.spec_opcode(),
            ConfigurationMessage::ModelSubscription(inner) => inner.spec_opcode(),
        }
    }

    open spec fn spec_parameters(&self) -> Seq<u8> {
        match self {
            ConfigurationMessage::Beacon(inner) => inner.spec_parameters(),
            ConfigurationMessage::DefaultTTL(inner) => inner.spec_parameters(),
            ConfigurationMessage::NodeReset(inner) => inner.spec_parameters(),
            ConfigurationMessage::CompositionData(inner) => inner.spec_parameters(),
            ConfigurationMessage::AppKey(inner) => inner.spec_parameters(),
            ConfigurationMessage::ModelApp(inner) => inner.spec_parameters(),
            ConfigurationMessage::ModelPublication(inner) => inner.spec_parameters(),
            ConfigurationMessage::ModelSubscription(inner) => inner.spec_parameters(),
        }
    }

    open spec fn emittable(&self) -> bool {
        match self {
            ConfigurationMessage::Beacon(inner) => inner.emittable(),
            ConfigurationMessage::DefaultTTL(inner) => inner.emittable(),
            ConfigurationMessage::NodeReset(inner) => inner.emittable(),
            ConfigurationMessage::CompositionData(inner) => inner.emittable(),
            ConfigurationMessage::AppKey(inner) => inner.emittable(),
            ConfigurationMessage::ModelApp(inner) => inner.emittable(),
            ConfigurationMessage::ModelPublication(inner) => inner.emittable(),
            ConfigurationMessage::ModelSubscription(inner) => inner.emittable(),
        }
    }

    fn opcode(&self) -> (o: Opcode) {
        match self {
            ConfigurationMessage::Beacon(inner) => inner.opcode(),
            ConfigurationMessage::DefaultTTL(inner) => inner.opcode(),
            ConfigurationMessage::NodeReset(inner) => inner.opcode(),
            ConfigurationMessage::CompositionData(inner) => inner.opcode(),
            ConfigurationMessage::AppKey(inner) => inner.opcode(),
            ConfigurationMessage::ModelApp(inner) => inner.opcode(),
            ConfigurationMessage::ModelPublication(inner) => inner.opcode(),
            ConfigurationMessage::ModelSubscription(inner) => inner.opcode(),
        }
    }

    fn emit_parameters(&self, xmit: &mut ByteBuf) -> (r: Result<(), InsufficientBuffer>) {
        match self {
            ConfigurationMessage::Beacon(inner) => inner.emit_parameters(xmit),
            ConfigurationMessage::DefaultTTL(inner) => inner.emit_parameters(xmit),
            ConfigurationMessage::NodeReset(inner) => inner.emit_parameters(xmit),
            ConfigurationMessage::CompositionData(inner) => inner.emit_parameters(xmit),
            ConfigurationMessage::AppKey(inner) => inner.emit_parameters(xmit),
            ConfigurationMessage::ModelApp(inner) => inner.emit_parameters(xmit),
            ConfigurationMessage::ModelPublication(inner) => inner.emit_parameters(xmit),
            ConfigurationMessage::ModelSubscription(inner) => inner.emit_parameters(xmit),
        }
    }
}

/// The configuration server model.
#[derive(PartialEq, Eq, Structural, Clone, Copy, Debug)]
pub struct ConfigurationServer;

impl Default for ConfigurationServer {
    fn default() -> (s: Self)
        ensures
            s == ConfigurationServer,
    {
        ConfigurationServer
    }
}

/// A reader's outcome, with the message it read wrapped by `wrap`.
pub open spec fn wrapped<M>(r: Result<M, ParseError>, wrap: spec_fn(M) -> ConfigurationMessage) -> Result<
    Option<ConfigurationMessage>,
    ParseError,
> {
    match r {
        Ok(m) => Ok(Some(wrap(m))),
        Err(e) => Err(e),
    }
}

/// Whether `r` is what the configuration server reads from `p` under
/// `opcode`: each opcode it handles has its reader, any other gives no
/// message.
pub open spec fn configuration_parsed(opcode: Opcode, p: Seq<u8>, r: Result<Option<ConfigurationMessage>, ParseError>) -> bool {
    if opcode == config_beacon_get() {
        r == wrapped(BeaconMessage::spec_parse_get(p), |m| ConfigurationMessage::Beacon(m))
    } else if opcode == config_beacon_set() {
        r == wrapped(BeaconMessage::spec_parse_set(p), |m| ConfigurationMessage::Beacon(m))
    } else if opcode == config_default_ttl_get() {
        r == wrapped(DefaultTTLMessage::spec_parse_get(p), |m| ConfigurationMessage::DefaultTTL(m))
    } else if opcode == config_default_ttl_set() {
        r == wrapped(DefaultTTLMessage::spec_parse_set(p), |m| ConfigurationMessage::DefaultTTL(m))
    } else if opcode == config_node_reset() {
        r == wrapped(NodeResetMessage::spec_parse_reset(p), |m| ConfigurationMessage::NodeReset(m))
    } else if opcode == config_composition_data_get() {
        r == wrapped(
            CompositionDataMessage::spec_parse_get(p),
            |page| ConfigurationMessage::CompositionData(CompositionDataMessage::Get(page)),
        )
    } else if opcode == config_appkey_add() {
        match r {
            Ok(Some(ConfigurationMessage::AppKey(m))) => AppKeyMessage::add_parsed(p, Ok(m)),
            Err(e) => AppKeyMessage::add_parsed(p, Err(e)),
            _ => false,
        }
    } else if opcode == config_appkey_get() {
        match r {
            Ok(Some(ConfigurationMessage::AppKey(m))) => AppKeyMessage::get_parsed(p, Ok(m)),
            Err(e) => AppKeyMessage::get_parsed(p, Err(e)),
            _ => false,
        }
    } else if opcode == config_model_app_bind() {
        r == wrapped(
            ModelAppPayload::spec_parse(p),
            |m| ConfigurationMessage::ModelApp(ModelAppMessage::Bind(m)),
        )
    } else if opcode == config_model_app_unbind() {
        r == wrapped(
            ModelAppPayload::spec_parse(p),
            |m| ConfigurationMessage::ModelApp(ModelAppMessage::Unbind(m)),
        )
    } else if opcode == config_model_publication_set() {
        match r {
            Ok(Some(ConfigurationMessage::ModelPublication(ModelPublicationMessage::SetRequest(m)))) =>
                ModelPublicationSetMessage::set_parsed(p, Ok(m)),
            Err(e) => ModelPublicationSetMessage::set_parsed(p, Err(e)),
            _ => false,
        }
    } else if opcode == config_model_publication_virtual_address_set() {
        match r {
            Ok(Some(ConfigurationMessage::ModelPublication(ModelPublicationMessage::SetRequest(m)))) =>
                ModelPublicationSetMessage::virtual_set_parsed(p, Ok(m)),
            Err(e) => ModelPublicationSetMessage::virtual_set_parsed(p, Err(e)),
            _ => false,
        }
    } else if opcode == config_model_subscription_add() {
        match r {
            Ok(Some(ConfigurationMessage::ModelSubscription(ModelSubscriptionMessage::Add(m)))) =>
                ModelSubscriptionAddMessage::add_parsed(p, Ok(m)),
            Err(e) => ModelSubscriptionAddMessage::add_parsed(p, Err(e)),
            _ => false,
        }
    } else if opcode == config_model_subscription_virtual_address_add() {
        match r {
            Ok(Some(ConfigurationMessage::ModelSubscription(ModelSubscriptionMessage::Add(m)))) =>
                ModelSubscriptionAddMessage::virtual_add_parsed(p, Ok(m)),
            Err(e) => ModelSubscriptionAddMessage::virtual_add_parsed(p, Err(e)),
            _ => false,
        }
    } else {
        r matches Ok(None)
    }
}

impl Model for ConfigurationServer {
    type Message = ConfigurationMessage;

    open spec fn spec_identifier(&self) -> ModelIdentifier {
        configuration_server()
    }

    /// Every input is read, but an Add whose addresses are read from six
    /// bytes and whose model identifier lies past them.
    open spec fn accepts(&self, opcode: Opcode, parameters: Seq<u8>) -> bool {
        opcode == config_model_subscription_add() ==> ModelSubscriptionAddMessage::add_in_bounds(parameters)
    }

    open spec fn parsed(&self, opcode: Opcode, parameters: Seq<u8>, r: Result<Option<ConfigurationMessage>, ParseError>) -> bool {
        configuration_parsed(opcode, parameters, r)
    }

    fn identifier(&self) -> (m: ModelIdentifier) {
        configuration_server()
    }

    fn parse(&self, opcode: Opcode, parameters: &[u8]) -> (r: Result<Option<ConfigurationMessage>, ParseError>) {
        if opcode == config_beacon_get() {
            Ok(Some(ConfigurationMessage::Beacon(BeaconMessage::parse_get(parameters)?)))
        } else if opcode == config_beacon_set() {
            Ok(Some(ConfigurationMessage::Beacon(BeaconMessage::parse_set(parameters)?)))
        } else if opcode == config_default_ttl_get() {
            Ok(Some(ConfigurationMessage::DefaultTTL(DefaultTTLMessage::parse_get(parameters)?)))
        } else if opcode == config_default_ttl_set() {
            Ok(Some(ConfigurationMessage::DefaultTTL(DefaultTTLMessage::parse_set(parameters)?)))
        } else if opcode == config_node_reset() {
            Ok(Some(ConfigurationMessage::NodeReset(NodeResetMessage::parse_reset(parameters)?)))
        } else if opcode == config_composition_data_get() {
            Ok(Some(ConfigurationMessage::CompositionData(CompositionDataMessage::parse_get(parameters)?)))
        } else if opcode == config_appkey_add() {
            Ok(Some(ConfigurationMessage::AppKey(AppKeyMessage::parse_add(parameters)?)))
        } else if opcode == config_appkey_get() {
            Ok(Some(ConfigurationMessage::AppKey(AppKeyMessage::parse_get(parameters)?)))
        } else if opcode == config_model_app_bind() {
            Ok(Some(ConfigurationMessage::ModelApp(ModelAppMessage::parse_bind(parameters)?)))
        } else if opcode == config_model_app_unbind() {
            Ok(Some(ConfigurationMessage::ModelApp(ModelAppMessage::parse_unbind(parameters)?)))
        } else if opcode == config_model_publication_set() {
            Ok(Some(ConfigurationMessage::ModelPublication(ModelPublicationMessage::parse_set(parameters)?)))
        } else if opcode == config_model_publication_virtual_address_set() {
            Ok(
                Some(
                    ConfigurationMessage::ModelPublication(
                        ModelPublicationMessage::parse_virtual_address_set(parameters)?,
                    ),
                ),
            )
        } else if opcode == config_model_subscription_add() {
            Ok(Some(ConfigurationMessage::ModelSubscription(ModelSubscriptionMessage::parse_add(parameters)?)))
        } else if opcode == config_model_subscription_virtual_address_add() {
            Ok(
                Some(
                    ConfigurationMessage::ModelSubscription(
                        ModelSubscriptionMessage::parse_virtual_address_add(parameters)?,
                    ),
                ),
            )
        } else {
            Ok(None)
        }
    }
}

} // verus!
