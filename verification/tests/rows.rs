use rabbitui::models::{
    first_message, ExchangeBindings, ExchangeInfo, MQMessage, PayloadPost, QueueInfo,
    QueueMsgStats, RateContainer, Rowable,
};
use rabbitui::numfmt::{rate_string, u64_to_dec_string};

fn exchange_named(name: &str) -> ExchangeInfo {
    ExchangeInfo {
        auto_delete: false,
        durable: true,
        internal: false,
        name: name.to_string(),
        t: "topic".to_string(),
        user_who_performed_action: "guest".to_string(),
        vhost: "/".to_string(),
    }
}

#[test]
fn decimal_rendering_is_exact() {
    assert_eq!(u64_to_dec_string(0), "0");
    assert_eq!(u64_to_dec_string(7), "7");
    assert_eq!(u64_to_dec_string(10), "10");
    assert_eq!(u64_to_dec_string(105), "105");
    assert_eq!(u64_to_dec_string(9000), "9000");
    assert_eq!(u64_to_dec_string(u64::MAX), "18446744073709551615");
}

#[test]
fn rates_carry_the_per_second_suffix() {
    assert_eq!(rate_string(0), "0/s");
    assert_eq!(rate_string(42), "42/s");
}

#[test]
fn exchange_row_names_the_default_exchange() {
    let row = exchange_named("").to_row();
    assert_eq!(row, vec!["(AMQP DEFAULT)".to_string(), "topic".to_string()]);
    let row = exchange_named("amq.topic").to_row();
    assert_eq!(row, vec!["amq.topic".to_string(), "topic".to_string()]);
}

#[test]
fn exchange_headers() {
    assert_eq!(ExchangeInfo::headers(), ["Name", "Type"]);
    assert_eq!(ExchangeBindings::headers(), ["To", "Routing key"]);
}

#[test]
fn binding_row_shows_destination_and_routing_key() {
    let b = ExchangeBindings {
        source: "amq.topic".to_string(),
        vhost: "/".to_string(),
        dest: "orders".to_string(),
        dest_type: "queue".to_string(),
        routing_key: "orders.*".to_string(),
        prop_key: "orders.*".to_string(),
    };
    assert_eq!(b.to_row(), vec!["orders".to_string(), "orders.*".to_string()]);
}

#[test]
fn queue_row_formats_counts_and_rates() {
    let q = QueueInfo {
        name: "orders".to_string(),
        t: "classic".to_string(),
        state: "running".to_string(),
        message_stats: QueueMsgStats {
            publish: 12,
            publish_details: RateContainer { rate: 3 },
            deliver_get: 9,
            deliver_get_details: RateContainer { rate: 2 },
            ack: 8,
            ack_details: RateContainer { rate: 1 },
        },
        ready: 100,
        unacked: 5,
        total: 105,
        vhost: "/".to_string(),
    };
    assert_eq!(
        q.to_row(),
        vec![
            "orders".to_string(),
            "classic".to_string(),
            "running".to_string(),
            "100".to_string(),
            "5".to_string(),
            "105".to_string(),
            "3/s".to_string(),
            "2/s".to_string(),
            "1/s".to_string(),
        ]
    );
}

#[test]
fn queue_headers_cover_all_nine_columns() {
    let h = QueueInfo::headers();
    assert_eq!(h.len(), 9);
    assert_eq!(h[0], "Name");
    assert_eq!(h[8], "Ack");
}

#[test]
fn first_message_takes_the_head_of_the_batch() {
    assert!(first_message(Vec::new()).is_none());
    let batch = vec![
        MQMessage {
            payload_bytes: 2,
            redelivered: false,
            exchange: "".to_string(),
            routing_key: "orders".to_string(),
            payload: "hi".to_string(),
        },
        MQMessage {
            payload_bytes: 3,
            redelivered: true,
            exchange: "".to_string(),
            routing_key: "orders".to_string(),
            payload: "bye".to_string(),
        },
    ];
    let m = first_message(batch).unwrap();
    assert_eq!(m.payload, "hi");
    assert_eq!(m.payload_bytes, 2);
}

#[test]
fn payload_post_builder_sets_key_and_payload() {
    let p = PayloadPost::default()
        .routing_key("orders".to_string())
        .payload("{\"a\":1}".to_string());
    assert_eq!(p.routing_key, "orders");
    assert_eq!(p.payload, "{\"a\":1}");
    assert_eq!(p.encoding, "string");
    assert!(p.properties.is_empty());
}
