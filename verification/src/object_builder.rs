//! The object builder's settings: which message queue it consumes from and
//! publishes to.
use vstd::prelude::*;

verus! {

/// The message queue that the object builder consumes from.
#[derive(PartialEq, Eq, Structural, Clone, Copy, Debug)]
pub enum CommunicationMethod {
    Kafka,
    Amqp,
    Other,
}

/// Kafka consumer settings.
pub struct ConsumerKafkaSettings {
    pub brokers: String,
    pub group_id: String,
    pub ingest_topic: String,
}

/// The options of an AMQP `basic.consume`.
#[derive(PartialEq, Eq, Structural, Clone, Copy, Debug)]
pub struct ConsumeOptions {
    pub no_local: bool,
    pub no_ack: bool,
    pub exclusive: bool,
    pub nowait: bool,
}

/// AMQP consumer settings.
pub struct AmqpSettings {
    pub exchange_url: String,
    pub tag: String,
    pub ingest_queue: String,
    pub consume_options: Option<ConsumeOptions>,
}

/// The addresses of the services that the object builder asks.
pub struct ServicesSettings {
    pub schema_registry_url: String,
    pub edge_registry_url: String,
}

/// The object builder's settings.
pub struct Settings {
    pub communication_method: CommunicationMethod,
    pub input_port: u16,
    pub chunk_capacity: usize,
    pub kafka: Option<ConsumerKafkaSettings>,
    pub amqp: Option<AmqpSettings>,
    pub services: ServicesSettings,
}

/// The consumer to create.
pub enum ConsumerConfig {
    Kafka { brokers: String, group_id: String, topic: String },
    Amqp {
        connection_string: String,
        consumer_tag: String,
        queue_name: String,
        options: Option<ConsumeOptions>,
    },
}

/// Settings that name no consumer that can be created.
#[derive(Debug)]
pub struct UnsupportedConsumer;

/// The endpoints a publisher may use: Kafka brokers and an AMQP exchange.
pub struct PublisherEndpoints {
    pub kafka_brokers: Option<String>,
    pub amqp_exchange_url: Option<String>,
}

/// The method that a settings file names: `kafka`, `amqp`, or any other word.
pub open spec fn method_of_name(name: Seq<char>) -> CommunicationMethod {
    if name == "kafka"@ {
        CommunicationMethod::Kafka
    } else if name == "amqp"@ {
        CommunicationMethod::Amqp
    } else {
        CommunicationMethod::Other
    }
}

impl CommunicationMethod {
    /// The method that a settings file names.
    pub fn from_name(name: &str) -> (m: Self)
        ensures
            m == method_of_name(name@),
    {
        let name = name.to_owned();
        if name == "kafka".to_owned() {
            CommunicationMethod::Kafka
        } else if name == "amqp".to_owned() {
            CommunicationMethod::Amqp
        } else {
            CommunicationMethod::Other
        }
    }

    /// The method's display name.
    pub fn name(&self) -> (n: &'static str)
        ensures
            n@ == match self {
                CommunicationMethod::Kafka => "Kafka"@,
                CommunicationMethod::Amqp => "Amqp"@,
                CommunicationMethod::Other => "Other"@,
            },
    {
        match self {
            CommunicationMethod::Kafka => "Kafka",
            CommunicationMethod::Amqp => "Amqp",
            CommunicationMethod::Other => "Other",
        }
    }
}

impl Settings {
    /// The consumer that the settings call for: Kafka when the method is
    /// Kafka and Kafka settings are given, AMQP when the method is AMQP and
    /// AMQP settings are given; otherwise no consumer.
    pub fn consumer(&self) -> (r: Result<ConsumerConfig, UnsupportedConsumer>)
        ensures
            match (self.communication_method, self.kafka, self.amqp) {
                (CommunicationMethod::Kafka, Some(k), _) => r matches Ok(
                    ConsumerConfig::Kafka { brokers, group_id, topic },
                ) && brokers == k.brokers && group_id == k.group_id && topic == k.ingest_topic,
                (CommunicationMethod::Amqp, _, Some(a)) => r matches Ok(
                    ConsumerConfig::Amqp { connection_string, consumer_tag, queue_name, options },
                ) && connection_string == a.exchange_url && consumer_tag == a.tag && queue_name
                    == a.ingest_queue && options == a.consume_options,
                _ => r is Err,
            },
    {
        match (&self.communication_method, &self.kafka, &self.amqp) {
            (CommunicationMethod::Kafka, Some(k), _) => Ok(
                ConsumerConfig::Kafka {
                    brokers: k.brokers.clone(),
                    group_id: k.group_id.clone(),
                    topic: k.ingest_topic.clone(),
                },
            ),
            (CommunicationMethod::Amqp, _, Some(a)) => Ok(
                ConsumerConfig::Amqp {
                    connection_string: a.exchange_url.clone(),
                    consumer_tag: a.tag.clone(),
                    queue_name: a.ingest_queue.clone(),
                    options: a.consume_options,
                },
            ),
            _ => Err(UnsupportedConsumer),
        }
    }

    /// The endpoints of the publisher: the Kafka brokers and the AMQP
    /// exchange, of those that are configured.
    pub fn publisher(&self) -> (p: PublisherEndpoints)
        ensures
            match self.kafka {
                Some(k) => p.kafka_brokers == Some(k.brokers),
                None => p.kafka_brokers is None,
            },
            match self.amqp {
                Some(a) => p.amqp_exchange_url == Some(a.exchange_url),
                None => p.amqp_exchange_url is None,
            },
    {
        PublisherEndpoints {
            kafka_brokers: match &self.kafka {
                Some(k) => Some(k.brokers.clone()),
                None => None,
            },
            amqp_exchange_url: match &self.amqp {
                Some(a) => Some(a.exchange_url.clone()),
                None => None,
            },
        }
    }
}

impl UnsupportedConsumer {
    /// The error's text.
    pub fn message(&self) -> (m: &'static str)
        ensures
            m@ == "Unsupported consumer specification"@,
    {
        "Unsupported consumer specification"
    }
}

} // verus!
