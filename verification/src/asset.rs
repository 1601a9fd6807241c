//! The bundled machine-readable protocol specification: the AMQP 0-9-1
//! grammar with the RabbitMQ extensions (the confirm class, basic.nack,
//! connection.blocked/unblocked, exchange bind/unbind), as the structured
//! document of domains, constants, errors and classes that
//! [`crate::specs::AMQProtocolDefinition::load`] parses.

use vstd::prelude::*;
use vstd::string::StringExecFns;

verus! {

const PART_0: &'static str = r#"{
 "name": "AMQP",
 "major_version": 0,
 "minor_version": 9,
 "revision": 1,
 "port": 5672,
 "copyright": "Copyright (C) 2008-2016 Pivotal Software, Inc, and licensors of the AMQP specification.",
 "domains": {
  "access-ticket": "ShortUInt",
  "class-id": "ShortUInt",
  "consumer-tag": "ShortString",
  "delivery-tag": "LongLongUInt",
  "destination": "ShortString",
  "duration": "LongLongUInt",
  "exchange-name": "ShortString",
  "method-id": "ShortUInt",
  "no-ack": "Boolean",
  "no-local": "Boolean",
  "nowait": "Boolean",
  "offset": "LongLongUInt",
  "path": "ShortString",
  "peer-properties": "FieldTable",
  "queue-name": "ShortString",
  "redelivered": "Boolean",
  "reference": "LongString",
  "reject-code": "ShortUInt",
  "reject-text": "ShortString",
  "reply-code": "ShortUInt",
  "reply-text": "ShortString",
  "security-token": "LongString",
  "table": "FieldTable",
  "timestamp": "Timestamp"
 },
 "constants": [
  {
   "name": "frame-method",
   "value": 1,
   "type": "ShortShortUInt"
  },
  {
   "name": "frame-header",
   "value": 2,
   "type": "ShortShortUInt"
  },
  {
   "name": "frame-body",
   "value": 3,
   "type": "ShortShortUInt"
  },
  {
   "name": "frame-heartbeat",
   "value": 8,
   "type": "ShortShortUInt"
  },
  {
   "name": "frame-min-size",
   "value": 4096,
   "type": "LongUInt"
  },
  {
   "name": "frame-end",
   "value": 206,
   "type": "ShortShortUInt"
  },
  {
   "name": "reply-success",
   "value": 200,
   "type": "ShortShortUInt"
  }
 ],
 "soft_errors": [
  {
   "name": "content-too-large",
   "value": 311,
   "type": "ShortUInt"
  },
  {
   "name": "no-route",
   "value": 312,
   "type": "ShortUInt"
  },
  {
   "name": "no-consumers",
   "value": 313,
   "type": "ShortUInt"
  },
  {
   "name": "access-refused",
   "value": 403,
   "type": "ShortUInt"
  },
  {
   "name": "not-found",
   "value": 404,
   "type": "ShortUInt"
  },
  {
   "name": "resource-locked",
   "value": 405,
   "type": "ShortUInt"
  },
  {
   "name": "precondition-"#;
const PART_1: &'static str = r#"failed",
   "value": 406,
   "type": "ShortUInt"
  }
 ],
 "hard_errors": [
  {
   "name": "connection-forced",
   "value": 320,
   "type": "ShortUInt"
  },
  {
   "name": "invalid-path",
   "value": 402,
   "type": "ShortUInt"
  },
  {
   "name": "frame-error",
   "value": 501,
   "type": "ShortUInt"
  },
  {
   "name": "syntax-error",
   "value": 502,
   "type": "ShortUInt"
  },
  {
   "name": "command-invalid",
   "value": 503,
   "type": "ShortUInt"
  },
  {
   "name": "channel-error",
   "value": 504,
   "type": "ShortUInt"
  },
  {
   "name": "unexpected-frame",
   "value": 505,
   "type": "ShortUInt"
  },
  {
   "name": "resource-error",
   "value": 506,
   "type": "ShortUInt"
  },
  {
   "name": "not-allowed",
   "value": 530,
   "type": "ShortUInt"
  },
  {
   "name": "not-implemented",
   "value": 540,
   "type": "ShortUInt"
  },
  {
   "name": "internal-error",
   "value": 541,
   "type": "ShortUInt"
  }
 ],
 "classes": [
  {
   "id": 10,
   "name": "connection",
   "methods": [
    {
     "id": 10,
     "name": "start",
     "arguments": [
      {
       "type": "ShortShortUInt",
       "name": "version-major",
       "default_value": 0
      },
      {
       "type": "ShortShortUInt",
       "name": "version-minor",
       "default_value": 9
      },
      {
       "type": "FieldTable",
       "name": "server-properties",
       "default_value": {},
       "domain": "peer-properties"
      },
      {
       "type": "LongString",
       "name": "mechanisms",
       "default_value": "PLAIN"
      },
      {
       "type": "LongString",
       "name": "locales",
       "default_value": "en_US"
      }
     ],
     "has_arguments": true,
     "has_flags": false,
     "synchronous": true
    },
    {
     "id": 11,
     "name": "start-ok",
     "arguments": [
      {
       "type": "FieldTable",
       "name": "client-properties",
       "default_value": {},
       "domain": "peer-properties"
      },
      {
       "type": "ShortString",
       "name": "mech"#;
const PART_2: &'static str = r#"anism",
       "default_value": "PLAIN"
      },
      {
       "type": "LongString",
       "name": "response"
      },
      {
       "type": "ShortString",
       "name": "locale",
       "default_value": "en_US"
      }
     ],
     "has_arguments": true,
     "has_flags": false,
     "synchronous": false
    },
    {
     "id": 20,
     "name": "secure",
     "arguments": [
      {
       "type": "LongString",
       "name": "challenge"
      }
     ],
     "has_arguments": true,
     "has_flags": false,
     "synchronous": true
    },
    {
     "id": 21,
     "name": "secure-ok",
     "arguments": [
      {
       "type": "LongString",
       "name": "response"
      }
     ],
     "has_arguments": true,
     "has_flags": false,
     "synchronous": false
    },
    {
     "id": 30,
     "name": "tune",
     "arguments": [
      {
       "type": "ShortUInt",
       "name": "channel-max",
       "default_value": 0
      },
      {
       "type": "LongUInt",
       "name": "frame-max",
       "default_value": 0
      },
      {
       "type": "ShortUInt",
       "name": "heartbeat",
       "default_value": 0
      }
     ],
     "has_arguments": true,
     "has_flags": false,
     "synchronous": true
    },
    {
     "id": 31,
     "name": "tune-ok",
     "arguments": [
      {
       "type": "ShortUInt",
       "name": "channel-max",
       "default_value": 0
      },
      {
       "type": "LongUInt",
       "name": "frame-max",
       "default_value": 0
      },
      {
       "type": "ShortUInt",
       "name": "heartbeat",
       "default_value": 0
      }
     ],
     "has_arguments": true,
     "has_flags": false,
     "synchronous": false
    },
    {
     "id": 40,
     "name": "open",
     "arguments": [
      {
       "type": "ShortString",
       "name": "virtual-host",
       "default_value": "/",
       "domain": "path"
      },
      {
       "type": "ShortString",
       "name": "capabilities",
       "default_value": ""
      },
      [
       "#;
const PART_3: &'static str = r#"{
        "name": "insist",
        "default_value": false
       }
      ]
     ],
     "has_arguments": true,
     "has_flags": true,
     "synchronous": true
    },
    {
     "id": 41,
     "name": "open-ok",
     "arguments": [
      {
       "type": "ShortString",
       "name": "known-hosts",
       "default_value": ""
      }
     ],
     "has_arguments": true,
     "has_flags": false,
     "synchronous": false
    },
    {
     "id": 50,
     "name": "close",
     "arguments": [
      {
       "type": "ShortUInt",
       "name": "reply-code",
       "domain": "reply-code"
      },
      {
       "type": "ShortString",
       "name": "reply-text",
       "default_value": "",
       "domain": "reply-text"
      },
      {
       "type": "ShortUInt",
       "name": "class-id",
       "domain": "class-id"
      },
      {
       "type": "ShortUInt",
       "name": "method-id",
       "domain": "method-id"
      }
     ],
     "has_arguments": true,
     "has_flags": false,
     "synchronous": true
    },
    {
     "id": 51,
     "name": "close-ok",
     "arguments": [],
     "has_arguments": false,
     "has_flags": false,
     "synchronous": false
    },
    {
     "id": 60,
     "name": "blocked",
     "arguments": [
      {
       "type": "ShortString",
       "name": "reason",
       "default_value": ""
      }
     ],
     "has_arguments": true,
     "has_flags": false,
     "synchronous": false
    },
    {
     "id": 61,
     "name": "unblocked",
     "arguments": [],
     "has_arguments": false,
     "has_flags": false,
     "synchronous": false
    }
   ],
   "properties": [],
   "has_properties": false,
   "is_connection": true
  },
  {
   "id": 20,
   "name": "channel",
   "methods": [
    {
     "id": 10,
     "name": "open",
     "arguments": [
      {
       "type": "ShortString",
       "name": "out-of-band",
       "default_value": ""
      }
     ],
     "has_arguments": true,
     "has_flags": false,
     "synchronous": true
    },
    {
    "#;
const PART_4: &'static str = r#" "id": 11,
     "name": "open-ok",
     "arguments": [
      {
       "type": "LongString",
       "name": "channel-id",
       "default_value": ""
      }
     ],
     "has_arguments": true,
     "has_flags": false,
     "synchronous": false
    },
    {
     "id": 20,
     "name": "flow",
     "arguments": [
      [
       {
        "name": "active",
        "default_value": true
       }
      ]
     ],
     "has_arguments": true,
     "has_flags": true,
     "synchronous": true
    },
    {
     "id": 21,
     "name": "flow-ok",
     "arguments": [
      [
       {
        "name": "active",
        "default_value": true
       }
      ]
     ],
     "has_arguments": true,
     "has_flags": true,
     "synchronous": false
    },
    {
     "id": 40,
     "name": "close",
     "arguments": [
      {
       "type": "ShortUInt",
       "name": "reply-code",
       "domain": "reply-code"
      },
      {
       "type": "ShortString",
       "name": "reply-text",
       "default_value": "",
       "domain": "reply-text"
      },
      {
       "type": "ShortUInt",
       "name": "class-id",
       "domain": "class-id"
      },
      {
       "type": "ShortUInt",
       "name": "method-id",
       "domain": "method-id"
      }
     ],
     "has_arguments": true,
     "has_flags": false,
     "synchronous": true
    },
    {
     "id": 41,
     "name": "close-ok",
     "arguments": [],
     "has_arguments": false,
     "has_flags": false,
     "synchronous": false
    }
   ],
   "properties": [],
   "has_properties": false,
   "is_connection": false
  },
  {
   "id": 30,
   "name": "access",
   "methods": [
    {
     "id": 10,
     "name": "request",
     "arguments": [
      {
       "type": "ShortString",
       "name": "realm",
       "default_value": "/data"
      },
      [
       {
        "name": "exclusive",
        "default_value": false
       },
       {
        "name": "passive",
        "default_value": true
       },
       {
        "name": "active",
   "#;
const PART_5: &'static str = r#"     "default_value": true
       },
       {
        "name": "write",
        "default_value": true
       },
       {
        "name": "read",
        "default_value": true
       }
      ]
     ],
     "has_arguments": true,
     "has_flags": true,
     "synchronous": true
    },
    {
     "id": 11,
     "name": "request-ok",
     "arguments": [
      {
       "type": "ShortUInt",
       "name": "ticket",
       "default_value": 1,
       "domain": "access-ticket"
      }
     ],
     "has_arguments": true,
     "has_flags": false,
     "synchronous": false
    }
   ],
   "properties": [],
   "has_properties": false,
   "is_connection": false
  },
  {
   "id": 40,
   "name": "exchange",
   "methods": [
    {
     "id": 10,
     "name": "declare",
     "arguments": [
      {
       "type": "ShortUInt",
       "name": "ticket",
       "default_value": 0,
       "domain": "access-ticket"
      },
      {
       "type": "ShortString",
       "name": "exchange",
       "domain": "exchange-name"
      },
      {
       "type": "ShortString",
       "name": "type",
       "default_value": "direct"
      },
      [
       {
        "name": "passive",
        "default_value": false
       },
       {
        "name": "durable",
        "default_value": false
       },
       {
        "name": "auto-delete",
        "default_value": false
       },
       {
        "name": "internal",
        "default_value": false
       },
       {
        "name": "nowait",
        "default_value": false
       }
      ],
      {
       "type": "FieldTable",
       "name": "arguments",
       "default_value": {},
       "domain": "table"
      }
     ],
     "has_arguments": true,
     "has_flags": true,
     "synchronous": true
    },
    {
     "id": 11,
     "name": "declare-ok",
     "arguments": [],
     "has_arguments": false,
     "has_flags": false,
     "synchronous": false
    },
    {
     "id": 20,
     "name": "delete",
     "arguments": [
      {
       "type": "ShortUInt",
"#;
const PART_6: &'static str = r#"       "name": "ticket",
       "default_value": 0,
       "domain": "access-ticket"
      },
      {
       "type": "ShortString",
       "name": "exchange",
       "domain": "exchange-name"
      },
      [
       {
        "name": "if-unused",
        "default_value": false
       },
       {
        "name": "nowait",
        "default_value": false
       }
      ]
     ],
     "has_arguments": true,
     "has_flags": true,
     "synchronous": true
    },
    {
     "id": 21,
     "name": "delete-ok",
     "arguments": [],
     "has_arguments": false,
     "has_flags": false,
     "synchronous": false
    },
    {
     "id": 30,
     "name": "bind",
     "arguments": [
      {
       "type": "ShortUInt",
       "name": "ticket",
       "default_value": 0,
       "domain": "access-ticket"
      },
      {
       "type": "ShortString",
       "name": "destination",
       "domain": "exchange-name"
      },
      {
       "type": "ShortString",
       "name": "source",
       "domain": "exchange-name"
      },
      {
       "type": "ShortString",
       "name": "routing-key",
       "default_value": ""
      },
      [
       {
        "name": "nowait",
        "default_value": false
       }
      ],
      {
       "type": "FieldTable",
       "name": "arguments",
       "default_value": {},
       "domain": "table"
      }
     ],
     "has_arguments": true,
     "has_flags": true,
     "synchronous": true
    },
    {
     "id": 31,
     "name": "bind-ok",
     "arguments": [],
     "has_arguments": false,
     "has_flags": false,
     "synchronous": false
    },
    {
     "id": 40,
     "name": "unbind",
     "arguments": [
      {
       "type": "ShortUInt",
       "name": "ticket",
       "default_value": 0,
       "domain": "access-ticket"
      },
      {
       "type": "ShortString",
       "name": "destination",
       "domain": "exchange-name"
      },
      {
       "type": "ShortString",
       "name": "source",
       "domain": "exchange-name"
      "#;
const PART_7: &'static str = r#"},
      {
       "type": "ShortString",
       "name": "routing-key",
       "default_value": ""
      },
      [
       {
        "name": "nowait",
        "default_value": false
       }
      ],
      {
       "type": "FieldTable",
       "name": "arguments",
       "default_value": {},
       "domain": "table"
      }
     ],
     "has_arguments": true,
     "has_flags": true,
     "synchronous": true
    },
    {
     "id": 51,
     "name": "unbind-ok",
     "arguments": [],
     "has_arguments": false,
     "has_flags": false,
     "synchronous": false
    }
   ],
   "properties": [],
   "has_properties": false,
   "is_connection": false
  },
  {
   "id": 50,
   "name": "queue",
   "methods": [
    {
     "id": 10,
     "name": "declare",
     "arguments": [
      {
       "type": "ShortUInt",
       "name": "ticket",
       "default_value": 0,
       "domain": "access-ticket"
      },
      {
       "type": "ShortString",
       "name": "queue",
       "default_value": "",
       "domain": "queue-name"
      },
      [
       {
        "name": "passive",
        "default_value": false
       },
       {
        "name": "durable",
        "default_value": false
       },
       {
        "name": "exclusive",
        "default_value": false
       },
       {
        "name": "auto-delete",
        "default_value": false
       },
       {
        "name": "nowait",
        "default_value": false
       }
      ],
      {
       "type": "FieldTable",
       "name": "arguments",
       "default_value": {},
       "domain": "table"
      }
     ],
     "has_arguments": true,
     "has_flags": true,
     "synchronous": true
    },
    {
     "id": 11,
     "name": "declare-ok",
     "arguments": [
      {
       "type": "ShortString",
       "name": "queue",
       "domain": "queue-name"
      },
      {
       "type": "LongUInt",
       "name": "message-count"
      },
      {
       "type": "LongUInt",
       "name": "consumer-count"
      }
     ],
     "has_argu"#;
const PART_8: &'static str = r#"ments": true,
     "has_flags": false,
     "synchronous": false
    },
    {
     "id": 20,
     "name": "bind",
     "arguments": [
      {
       "type": "ShortUInt",
       "name": "ticket",
       "default_value": 0,
       "domain": "access-ticket"
      },
      {
       "type": "ShortString",
       "name": "queue",
       "default_value": "",
       "domain": "queue-name"
      },
      {
       "type": "ShortString",
       "name": "exchange",
       "domain": "exchange-name"
      },
      {
       "type": "ShortString",
       "name": "routing-key",
       "default_value": ""
      },
      [
       {
        "name": "nowait",
        "default_value": false
       }
      ],
      {
       "type": "FieldTable",
       "name": "arguments",
       "default_value": {},
       "domain": "table"
      }
     ],
     "has_arguments": true,
     "has_flags": true,
     "synchronous": true
    },
    {
     "id": 21,
     "name": "bind-ok",
     "arguments": [],
     "has_arguments": false,
     "has_flags": false,
     "synchronous": false
    },
    {
     "id": 30,
     "name": "purge",
     "arguments": [
      {
       "type": "ShortUInt",
       "name": "ticket",
       "default_value": 0,
       "domain": "access-ticket"
      },
      {
       "type": "ShortString",
       "name": "queue",
       "default_value": "",
       "domain": "queue-name"
      },
      [
       {
        "name": "nowait",
        "default_value": false
       }
      ]
     ],
     "has_arguments": true,
     "has_flags": true,
     "synchronous": true
    },
    {
     "id": 31,
     "name": "purge-ok",
     "arguments": [
      {
       "type": "LongUInt",
       "name": "message-count"
      }
     ],
     "has_arguments": true,
     "has_flags": false,
     "synchronous": false
    },
    {
     "id": 40,
     "name": "delete",
     "arguments": [
      {
       "type": "ShortUInt",
       "name": "ticket",
       "default_value": 0,
       "domain": "access-ticket"
      },"#;
const PART_9: &'static str = r#"
      {
       "type": "ShortString",
       "name": "queue",
       "default_value": "",
       "domain": "queue-name"
      },
      [
       {
        "name": "if-unused",
        "default_value": false
       },
       {
        "name": "if-empty",
        "default_value": false
       },
       {
        "name": "nowait",
        "default_value": false
       }
      ]
     ],
     "has_arguments": true,
     "has_flags": true,
     "synchronous": true
    },
    {
     "id": 41,
     "name": "delete-ok",
     "arguments": [
      {
       "type": "LongUInt",
       "name": "message-count"
      }
     ],
     "has_arguments": true,
     "has_flags": false,
     "synchronous": false
    },
    {
     "id": 50,
     "name": "unbind",
     "arguments": [
      {
       "type": "ShortUInt",
       "name": "ticket",
       "default_value": 0,
       "domain": "access-ticket"
      },
      {
       "type": "ShortString",
       "name": "queue",
       "default_value": "",
       "domain": "queue-name"
      },
      {
       "type": "ShortString",
       "name": "exchange",
       "domain": "exchange-name"
      },
      {
       "type": "ShortString",
       "name": "routing-key",
       "default_value": ""
      },
      {
       "type": "FieldTable",
       "name": "arguments",
       "default_value": {},
       "domain": "table"
      }
     ],
     "has_arguments": true,
     "has_flags": false,
     "synchronous": true
    },
    {
     "id": 51,
     "name": "unbind-ok",
     "arguments": [],
     "has_arguments": false,
     "has_flags": false,
     "synchronous": false
    }
   ],
   "properties": [],
   "has_properties": false,
   "is_connection": false
  },
  {
   "id": 60,
   "name": "basic",
   "methods": [
    {
     "id": 10,
     "name": "qos",
     "arguments": [
      {
       "type": "LongUInt",
       "name": "prefetch-size",
       "default_value": 0
      },
      {
       "type": "ShortUInt",
       "name": "prefetch-count",
       "default_"#;
const PART_10: &'static str = r#"value": 0
      },
      [
       {
        "name": "global",
        "default_value": false
       }
      ]
     ],
     "has_arguments": true,
     "has_flags": true,
     "synchronous": true
    },
    {
     "id": 11,
     "name": "qos-ok",
     "arguments": [],
     "has_arguments": false,
     "has_flags": false,
     "synchronous": false
    },
    {
     "id": 20,
     "name": "consume",
     "arguments": [
      {
       "type": "ShortUInt",
       "name": "ticket",
       "default_value": 0,
       "domain": "access-ticket"
      },
      {
       "type": "ShortString",
       "name": "queue",
       "default_value": "",
       "domain": "queue-name"
      },
      {
       "type": "ShortString",
       "name": "consumer-tag",
       "default_value": "",
       "domain": "consumer-tag"
      },
      [
       {
        "name": "no-local",
        "default_value": false
       },
       {
        "name": "no-ack",
        "default_value": false
       },
       {
        "name": "exclusive",
        "default_value": false
       },
       {
        "name": "nowait",
        "default_value": false
       }
      ],
      {
       "type": "FieldTable",
       "name": "arguments",
       "default_value": {},
       "domain": "table"
      }
     ],
     "has_arguments": true,
     "has_flags": true,
     "synchronous": true
    },
    {
     "id": 21,
     "name": "consume-ok",
     "arguments": [
      {
       "type": "ShortString",
       "name": "consumer-tag",
       "domain": "consumer-tag"
      }
     ],
     "has_arguments": true,
     "has_flags": false,
     "synchronous": false
    },
    {
     "id": 30,
     "name": "cancel",
     "arguments": [
      {
       "type": "ShortString",
       "name": "consumer-tag",
       "domain": "consumer-tag"
      },
      [
       {
        "name": "nowait",
        "default_value": false
       }
      ]
     ],
     "has_arguments": true,
     "has_flags": true,
     "synchronous": true
    },
    {
     ""#;
const PART_11: &'static str = r#"id": 31,
     "name": "cancel-ok",
     "arguments": [
      {
       "type": "ShortString",
       "name": "consumer-tag",
       "domain": "consumer-tag"
      }
     ],
     "has_arguments": true,
     "has_flags": false,
     "synchronous": false
    },
    {
     "id": 40,
     "name": "publish",
     "arguments": [
      {
       "type": "ShortUInt",
       "name": "ticket",
       "default_value": 0,
       "domain": "access-ticket"
      },
      {
       "type": "ShortString",
       "name": "exchange",
       "default_value": "",
       "domain": "exchange-name"
      },
      {
       "type": "ShortString",
       "name": "routing-key",
       "default_value": ""
      },
      [
       {
        "name": "mandatory",
        "default_value": false
       },
       {
        "name": "immediate",
        "default_value": false
       }
      ]
     ],
     "has_arguments": true,
     "has_flags": true,
     "synchronous": false
    },
    {
     "id": 50,
     "name": "return",
     "arguments": [
      {
       "type": "ShortUInt",
       "name": "reply-code",
       "domain": "reply-code"
      },
      {
       "type": "ShortString",
       "name": "reply-text",
       "default_value": "",
       "domain": "reply-text"
      },
      {
       "type": "ShortString",
       "name": "exchange",
       "domain": "exchange-name"
      },
      {
       "type": "ShortString",
       "name": "routing-key",
       "default_value": ""
      }
     ],
     "has_arguments": true,
     "has_flags": false,
     "synchronous": false
    },
    {
     "id": 60,
     "name": "deliver",
     "arguments": [
      {
       "type": "ShortString",
       "name": "consumer-tag",
       "domain": "consumer-tag"
      },
      {
       "type": "LongLongUInt",
       "name": "delivery-tag",
       "domain": "delivery-tag"
      },
      [
       {
        "name": "redelivered",
        "default_value": false
       }
      ],
      {
       "type": "ShortString",
       "name": "#;
const PART_12: &'static str = r#""exchange",
       "domain": "exchange-name"
      },
      {
       "type": "ShortString",
       "name": "routing-key",
       "default_value": ""
      }
     ],
     "has_arguments": true,
     "has_flags": true,
     "synchronous": false
    },
    {
     "id": 70,
     "name": "get",
     "arguments": [
      {
       "type": "ShortUInt",
       "name": "ticket",
       "default_value": 0,
       "domain": "access-ticket"
      },
      {
       "type": "ShortString",
       "name": "queue",
       "default_value": "",
       "domain": "queue-name"
      },
      [
       {
        "name": "no-ack",
        "default_value": false
       }
      ]
     ],
     "has_arguments": true,
     "has_flags": true,
     "synchronous": true
    },
    {
     "id": 71,
     "name": "get-ok",
     "arguments": [
      {
       "type": "LongLongUInt",
       "name": "delivery-tag",
       "domain": "delivery-tag"
      },
      [
       {
        "name": "redelivered",
        "default_value": false
       }
      ],
      {
       "type": "ShortString",
       "name": "exchange",
       "domain": "exchange-name"
      },
      {
       "type": "ShortString",
       "name": "routing-key",
       "default_value": ""
      },
      {
       "type": "LongUInt",
       "name": "message-count"
      }
     ],
     "has_arguments": true,
     "has_flags": true,
     "synchronous": false
    },
    {
     "id": 72,
     "name": "get-empty",
     "arguments": [
      {
       "type": "ShortString",
       "name": "cluster-id",
       "default_value": ""
      }
     ],
     "has_arguments": true,
     "has_flags": false,
     "synchronous": false
    },
    {
     "id": 80,
     "name": "ack",
     "arguments": [
      {
       "type": "LongLongUInt",
       "name": "delivery-tag",
       "default_value": 0,
       "domain": "delivery-tag"
      },
      [
       {
        "name": "multiple",
        "default_value": false
       }
      ]
     ],
     "has_arguments": true,
     ""#;
const PART_13: &'static str = r#"has_flags": true,
     "synchronous": false
    },
    {
     "id": 90,
     "name": "reject",
     "arguments": [
      {
       "type": "LongLongUInt",
       "name": "delivery-tag",
       "domain": "delivery-tag"
      },
      [
       {
        "name": "requeue",
        "default_value": true
       }
      ]
     ],
     "has_arguments": true,
     "has_flags": true,
     "synchronous": false
    },
    {
     "id": 100,
     "name": "recover-async",
     "arguments": [
      [
       {
        "name": "requeue",
        "default_value": false
       }
      ]
     ],
     "has_arguments": true,
     "has_flags": true,
     "synchronous": false
    },
    {
     "id": 110,
     "name": "recover",
     "arguments": [
      [
       {
        "name": "requeue",
        "default_value": false
       }
      ]
     ],
     "has_arguments": true,
     "has_flags": true,
     "synchronous": true
    },
    {
     "id": 111,
     "name": "recover-ok",
     "arguments": [],
     "has_arguments": false,
     "has_flags": false,
     "synchronous": false
    },
    {
     "id": 120,
     "name": "nack",
     "arguments": [
      {
       "type": "LongLongUInt",
       "name": "delivery-tag",
       "default_value": 0,
       "domain": "delivery-tag"
      },
      [
       {
        "name": "multiple",
        "default_value": false
       },
       {
        "name": "requeue",
        "default_value": true
       }
      ]
     ],
     "has_arguments": true,
     "has_flags": true,
     "synchronous": false
    }
   ],
   "properties": [
    {
     "type": "ShortString",
     "name": "content-type"
    },
    {
     "type": "ShortString",
     "name": "content-encoding"
    },
    {
     "type": "FieldTable",
     "name": "headers"
    },
    {
     "type": "ShortShortUInt",
     "name": "delivery-mode"
    },
    {
     "type": "ShortShortUInt",
     "name": "priority"
    },
    {
     "type": "ShortString",
     "name": "correlation-id"
    },
    {
     "type": "S"#;
const PART_14: &'static str = r#"hortString",
     "name": "reply-to"
    },
    {
     "type": "ShortString",
     "name": "expiration"
    },
    {
     "type": "ShortString",
     "name": "message-id"
    },
    {
     "type": "Timestamp",
     "name": "timestamp"
    },
    {
     "type": "ShortString",
     "name": "type"
    },
    {
     "type": "ShortString",
     "name": "user-id"
    },
    {
     "type": "ShortString",
     "name": "app-id"
    },
    {
     "type": "ShortString",
     "name": "cluster-id"
    }
   ],
   "has_properties": true,
   "is_connection": false
  },
  {
   "id": 85,
   "name": "confirm",
   "methods": [
    {
     "id": 10,
     "name": "select",
     "arguments": [
      [
       {
        "name": "nowait",
        "default_value": false
       }
      ]
     ],
     "has_arguments": true,
     "has_flags": true,
     "synchronous": true
    },
    {
     "id": 11,
     "name": "select-ok",
     "arguments": [],
     "has_arguments": false,
     "has_flags": false,
     "synchronous": false
    }
   ],
   "properties": [],
   "has_properties": false,
   "is_connection": false
  },
  {
   "id": 90,
   "name": "tx",
   "methods": [
    {
     "id": 10,
     "name": "select",
     "arguments": [],
     "has_arguments": false,
     "has_flags": false,
     "synchronous": true
    },
    {
     "id": 11,
     "name": "select-ok",
     "arguments": [],
     "has_arguments": false,
     "has_flags": false,
     "synchronous": false
    },
    {
     "id": 20,
     "name": "commit",
     "arguments": [],
     "has_arguments": false,
     "has_flags": false,
     "synchronous": true
    },
    {
     "id": 21,
     "name": "commit-ok",
     "arguments": [],
     "has_arguments": false,
     "has_flags": false,
     "synchronous": false
    },
    {
     "id": 30,
     "name": "rollback",
     "arguments": [],
     "has_arguments": false,
     "has_flags": false,
     "synchronous": true
    },
    {
     "id": 31,
     "name": "rollback-ok",
     "arguments": [],
     ""#;
const PART_15: &'static str = r#"has_arguments": false,
     "has_flags": false,
     "synchronous": false
    }
   ],
   "properties": [],
   "has_properties": false,
   "is_connection": false
  }
 ]
}"#;

/// The specification asset's text, as a mathematical value.
pub closed spec fn spec_asset() -> Seq<char> {
    PART_0@ + PART_1@ + PART_2@ + PART_3@ + PART_4@ + PART_5@ + PART_6@ + PART_7@ + PART_8@ + PART_9@ + PART_10@ + PART_11@ + PART_12@ + PART_13@ + PART_14@ + PART_15@
}

/// The specification asset's text, assembled from its pieces.
pub fn specification_text() -> (r: String)
    ensures
        r@ == spec_asset(),
{
    let mut text = String::new();
    text.append(PART_0);
    text.append(PART_1);
    text.append(PART_2);
    text.append(PART_3);
    text.append(PART_4);
    text.append(PART_5);
    text.append(PART_6);
    text.append(PART_7);
    text.append(PART_8);
    text.append(PART_9);
    text.append(PART_10);
    text.append(PART_11);
    text.append(PART_12);
    text.append(PART_13);
    text.append(PART_14);
    text.append(PART_15);
    proof {
        assert(text@ =~= spec_asset());
    }
    text
}

} // verus!
