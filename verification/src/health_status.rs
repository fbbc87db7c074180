//! The parts of a service status for Cumulocity, read from a health topic
//! and a health payload.

use crate::converter::ConversionError;
use crate::json::{value_text, JsonObject};
use crate::text::{levels, split_levels};
use vstd::prelude::*;

verus! {

/// The topic on which the status of a service is published: `c8y/s/us` for
/// a topic of three levels, `c8y/s/us/<child>` for one of four.
pub open spec fn c8y_health_topic(topic: Seq<char>) -> Option<Seq<char>> {
    if levels(topic).len() == 3 {
        Some("c8y/s/us"@)
    } else if levels(topic).len() == 4 {
        Some("c8y/s/us"@ + "/"@ + levels(topic)[2])
    } else {
        None
    }
}

/// The topic on which the status of a service is published. A health topic
/// of neither three nor four levels is refused with `UnsupportedTopic` and
/// the topic.
pub fn get_c8y_health_topic(topic: &str) -> (r: Result<String, ConversionError>)
    ensures
        match r {
            Ok(name) => c8y_health_topic(topic@) == Some(name@),
            Err(ConversionError::UnsupportedTopic(name)) => c8y_health_topic(topic@) is None
                && name@ == topic@,
            Err(_) => false,
        },
{
    let topic_split = split_levels(topic);
    if topic_split.len() == 3 {
        Ok(String::from_str("c8y/s/us"))
    } else if topic_split.len() == 4 {
        let mut name = String::from_str("c8y/s/us");
        name.append("/");
        name.append(topic_split[2]);
        Ok(name)
    } else {
        Err(ConversionError::UnsupportedTopic(String::from_str(topic)))
    }
}

/// The status of a health payload, as JSON.
pub fn get_health_status(payload: &JsonObject) -> (r: String)
    requires
        payload@.contains_key("status"@),
    ensures
        r@ == value_text(payload@["status"@]),
{
    match payload.get("status") {
        Some(status) => status.to_text(),
        None => String::new(),
    }
}

/// The service type of a health payload, as JSON; `thin-edge.io` where it
/// tells none.
pub fn get_service_type(payload: &JsonObject) -> (r: String)
    ensures
        r@ == if payload@.contains_key("type"@) {
            value_text(payload@["type"@])
        } else {
            "thin-edge.io"@
        },
{
    match payload.get("type") {
        Some(t) => t.to_text(),
        None => String::from_str("thin-edge.io"),
    }
}

/// The service of a health topic of at least three levels: the fourth
/// level of a topic of four levels, else the third.
pub fn get_service_name<'a>(topic: &'a str) -> (r: &'a str)
    requires
        levels(topic@).len() >= 3,
    ensures
        r@ == crate::service_monitor::service_of(topic@),
{
    let topic_split = split_levels(topic);
    if topic_split.len() == 4 {
        topic_split[3]
    } else {
        topic_split[2]
    }
}

/// The external identifier of a service: the device, the child where the
/// topic has four levels, and the service, with `_` between them.
pub fn get_service_id(device_name: String, service_name: &str, topic: &str) -> (r: String)
    ensures
        r@ == crate::service_monitor::service_external_id(
            device_name@,
            crate::service_monitor::child_of(topic@),
            service_name@,
        ),
{
    let topic_split = split_levels(topic);
    let mut id = device_name;
    id.append("_");
    if topic_split.len() == 4 {
        id.append(topic_split[2]);
        id.append("_");
    }
    id.append(service_name);
    proof {
        assert(id@ =~= crate::service_monitor::service_external_id(
            device_name@,
            crate::service_monitor::child_of(topic@),
            service_name@,
        ));
    }
    id
}

} // verus!
